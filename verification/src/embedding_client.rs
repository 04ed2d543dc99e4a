//! Which embedding endpoint to use, and what to send to it.

use crate::completion_client::{
    completion_of, first_set, CompletionEnv, OLLAMA_DEFAULT_BASE_URL, OPENAI_DEFAULT_BASE_URL,
};
use crate::env::{env_nonempty, env_says, number_in, parse_number};
use crate::json::{int_json, jint, jtext, jtexts, texts_json, Fields, Json, JsonView};
use crate::text::{cat2, cat4, decimal, opt, own, show_usize, texts, trim_end_of, without_trailing};
use vstd::prelude::*;

verus! {

/// An embedding endpoint.
#[derive(Debug, Clone, PartialEq, Eq)]
pub struct EmbeddingClient {
    pub base_url: String,
    pub api_key: String,
    pub model: String,
    pub dimension: u32,
}

/// The meaning of an embedding endpoint.
pub struct EmbeddingView {
    pub base_url: Seq<char>,
    pub api_key: Seq<char>,
    pub model: Seq<char>,
    pub dimension: int,
}

impl View for EmbeddingClient {
    type V = EmbeddingView;

    open spec fn view(&self) -> EmbeddingView {
        EmbeddingView {
            base_url: self.base_url@,
            api_key: self.api_key@,
            model: self.model@,
            dimension: self.dimension as int,
        }
    }
}

/// The settings that decide on the embedding endpoint.
pub struct EmbeddingEnv {
    pub openai_key: Option<Seq<char>>,
    pub openai_base_url: Option<Seq<char>>,
    pub llm_base_url: Option<Seq<char>>,
    pub model: Option<Seq<char>>,
    pub dimension: Option<Seq<char>>,
}

/// Whether `get_env` may give these settings.
pub open spec fn embedding_env<F: Fn(&str) -> Option<String>>(
    get_env: F,
    e: EmbeddingEnv,
) -> bool {
    &&& env_says(get_env, "OPENAI_API_KEY", e.openai_key)
    &&& env_says(get_env, "OPENAI_BASE_URL", e.openai_base_url)
    &&& env_says(get_env, "CONEXUS_LLM_BASE_URL", e.llm_base_url)
    &&& env_says(get_env, "CONEXUS_EMBEDDING_MODEL", e.model)
    &&& env_says(get_env, "CONEXUS_EMBEDDING_DIMENSION", e.dimension)
}

/// The dimension that a setting names, where it is a number that fits; else
/// the provider's own.
pub open spec fn dimension_of(s: Option<Seq<char>>, provider: int) -> int {
    match s {
        Some(t) => match number_in(t, u32::MAX as nat) {
            Some(n) => n as int,
            None => provider,
        },
        None => provider,
    }
}

/// The embedding endpoint that the settings ask for: with a key the cloud
/// provider, which `OPENAI_BASE_URL` moves; without one a local server, which
/// `CONEXUS_LLM_BASE_URL` moves. Model and dimension can be set for either.
pub open spec fn embedding_of(e: EmbeddingEnv) -> EmbeddingView {
    match e.openai_key {
        Some(key) => EmbeddingView {
            base_url: first_set(e.openai_base_url, None, OPENAI_DEFAULT_BASE_URL@),
            api_key: key,
            model: first_set(e.model, None, "text-embedding-3-large"@),
            dimension: dimension_of(e.dimension, 1536),
        },
        None => EmbeddingView {
            base_url: first_set(e.llm_base_url, None, OLLAMA_DEFAULT_BASE_URL@),
            api_key: "ollama"@,
            model: first_set(e.model, None, "qwen3-embedding:0.6b"@),
            dimension: dimension_of(e.dimension, 1024),
        },
    }
}

/// The chat endpoint and the embedding endpoint never disagree about the
/// provider: both go by the cloud provider's key.
pub proof fn both_clients_use_one_provider(c: CompletionEnv, e: EmbeddingEnv)
    requires
        c.openai_key == e.openai_key,
        completion_of(c) is Ok,
    ensures
        completion_of(c)->Ok_0.api_key == embedding_of(e).api_key,
{
}

fn or_default(s: Option<String>, fallback: &str) -> (r: String)
    ensures
        r@ == first_set(opt(s), None, fallback@),
{
    match s {
        Some(x) => x,
        None => own(fallback),
    }
}

fn or_dimension(s: &Option<String>, provider: u32) -> (r: u32)
    ensures
        r == dimension_of(opt(*s), provider as int),
{
    match s {
        Some(t) => match parse_number(t.as_str(), u32::MAX as u64) {
            Some(n) => n as u32,
            None => provider,
        },
        None => provider,
    }
}

/// The embedding endpoint that the settings ask for.
pub fn resolve<F: Fn(&str) -> Option<String>>(get_env: F) -> (r: EmbeddingClient)
    requires
        forall|key: &str| #[trigger] call_requires(get_env, (key,)),
    ensures
        exists|e: EmbeddingEnv| #[trigger] embedding_env(get_env, e) && r@ == embedding_of(e),
{
    let model: Option<String> = env_nonempty(&get_env, "CONEXUS_EMBEDDING_MODEL");
    let dimension: Option<String> = env_nonempty(&get_env, "CONEXUS_EMBEDDING_DIMENSION");
    let openai_key: Option<String> = env_nonempty(&get_env, "OPENAI_API_KEY");
    let openai_base_url: Option<String> = env_nonempty(&get_env, "OPENAI_BASE_URL");
    let llm_base_url: Option<String> = env_nonempty(&get_env, "CONEXUS_LLM_BASE_URL");
    let ghost e = EmbeddingEnv {
        openai_key: opt(openai_key),
        openai_base_url: opt(openai_base_url),
        llm_base_url: opt(llm_base_url),
        model: opt(model),
        dimension: opt(dimension),
    };
    proof {
        assert(embedding_env(get_env, e));
    }
    match openai_key {
        Some(api_key) => EmbeddingClient {
            base_url: or_default(openai_base_url, OPENAI_DEFAULT_BASE_URL),
            api_key,
            model: or_default(model, "text-embedding-3-large"),
            dimension: or_dimension(&dimension, 1536),
        },
        None => EmbeddingClient {
            base_url: or_default(llm_base_url, OLLAMA_DEFAULT_BASE_URL),
            api_key: own("ollama"),
            model: or_default(model, "qwen3-embedding:0.6b"),
            dimension: or_dimension(&dimension, 1024),
        },
    }
}

/// A request to the endpoint failed.
#[derive(Debug, PartialEq, Eq)]
pub struct EmbedError(pub String);

impl EmbedError {
    /// What happened, in words.
    pub fn message(&self) -> (r: String)
        ensures
            r@ == "embedding request failed: "@ + self.0@,
    {
        cat2("embedding request failed: ", self.0.as_str())
    }

    /// The failure of a request that was refused with this status.
    pub fn refused(status: &str) -> (r: EmbedError)
        ensures
            r.0@ == "HTTP "@ + status@,
    {
        EmbedError(cat2("HTTP ", status))
    }

    /// Whether a reply with `got` vectors answers a request for `asked` texts:
    /// it has one for each.
    pub fn one_each(asked: usize, got: usize) -> (r: Result<(), EmbedError>)
        ensures
            r is Ok <==> asked == got,
            r matches Err(e) ==> e.0@ == decimal(got as nat) + " vectors for "@ + decimal(
                asked as nat,
            ) + " texts"@,
    {
        if asked == got {
            Ok(())
        } else {
            let had: String = show_usize(got);
            let wanted: String = show_usize(asked);
            Err(EmbedError(cat4(had.as_str(), " vectors for ", wanted.as_str(), " texts")))
        }
    }
}

/// The body of a request for the vectors of texts.
pub open spec fn embed_request(model: Seq<char>, inputs: Seq<Seq<char>>, dimension: int) -> JsonView {
    JsonView::Object(
        map![
        "model"@ => JsonView::Text(model),
        "input"@ => texts_json(inputs),
        "dimensions"@ => int_json(dimension)
    ],
    )
}

/// Where vectors are asked for.
pub open spec fn embed_address(base_url: Seq<char>) -> Seq<char> {
    without_trailing(base_url, '/') + "/embeddings"@
}

impl EmbeddingClient {
    /// Where requests go.
    pub fn embed_url(&self) -> (r: String)
        ensures
            r@ == without_trailing(self@.base_url, '/') + "/embeddings"@,
            r@ == embed_address(self@.base_url),
    {
        let base: String = trim_end_of(self.base_url.as_str(), '/');
        cat2(base.as_str(), "/embeddings")
    }

    /// The body of a request for the embeddings of `inputs`.
    pub fn embed_body(&self, inputs: &Vec<String>) -> (r: Json)
        ensures
            r@ == JsonView::Object(
                map![
                "model"@ => JsonView::Text(self@.model),
                "input"@ => texts_json(texts(inputs@)),
                "dimensions"@ => int_json(self@.dimension)
            ],
            ),
            r@ == embed_request(self@.model, texts(inputs@), self@.dimension),
    {
        let mut f: Fields = Fields::new();
        f.put("model", jtext(self.model.as_str()));
        f.put("input", jtexts(inputs));
        f.put("dimensions", jint(self.dimension as i64));
        f.done()
    }
}

} // verus!
