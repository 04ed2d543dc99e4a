//! Which chat endpoint to use, what to send to it and what to make of its
//! answer.

use crate::env::{env_nonempty, env_says};
use crate::json::{int_json, jint, jtext, Fields, Items, Json, JsonView};
use crate::text::{cat2, opt, own, trim_end_of, without_trailing};
use vstd::prelude::*;

verus! {

/// Where a local server listens.
pub const OLLAMA_DEFAULT_BASE_URL: &'static str = "http://localhost:11434/v1";

/// The model of a local server.
pub const OLLAMA_DEFAULT_MODEL: &'static str = "qwen3:1.7b";

/// The cloud provider's address.
pub const OPENAI_DEFAULT_BASE_URL: &'static str = "https://api.openai.com/v1";

/// The cloud provider is configured without a model.
#[derive(Debug, Clone, Copy, PartialEq, Eq, Structural)]
pub struct CompletionConfigError;

impl CompletionConfigError {
    /// What is wrong, in words.
    pub fn message(&self) -> (r: String)
        ensures
            r@
                == "OPENAI_API_KEY is set but OPENAI_MODEL is not; the OpenAI provider requires an explicit model"@,
    {
        own(
            "OPENAI_API_KEY is set but OPENAI_MODEL is not; the OpenAI provider requires an explicit model",
        )
    }
}

/// A chat endpoint.
#[derive(Debug, Clone, PartialEq, Eq)]
pub struct CompletionClient {
    pub base_url: String,
    pub api_key: String,
    pub model: String,
}

/// The meaning of a chat endpoint.
pub struct ClientView {
    pub base_url: Seq<char>,
    pub api_key: Seq<char>,
    pub model: Seq<char>,
}

impl View for CompletionClient {
    type V = ClientView;

    open spec fn view(&self) -> ClientView {
        ClientView { base_url: self.base_url@, api_key: self.api_key@, model: self.model@ }
    }
}

/// The settings that decide on the chat endpoint.
pub struct CompletionEnv {
    pub openai_key: Option<Seq<char>>,
    pub openai_model: Option<Seq<char>>,
    pub openai_base_url: Option<Seq<char>>,
    pub llm_base_url: Option<Seq<char>>,
    pub ollama_model: Option<Seq<char>>,
}

/// Whether `get_env` may give these settings.
pub open spec fn completion_env<F: Fn(&str) -> Option<String>>(
    get_env: F,
    e: CompletionEnv,
) -> bool {
    &&& env_says(get_env, "OPENAI_API_KEY", e.openai_key)
    &&& env_says(get_env, "OPENAI_MODEL", e.openai_model)
    &&& env_says(get_env, "OPENAI_BASE_URL", e.openai_base_url)
    &&& env_says(get_env, "CONEXUS_LLM_BASE_URL", e.llm_base_url)
    &&& env_says(get_env, "OLLAMA_MODEL", e.ollama_model)
}

/// The first of three that is there.
pub open spec fn first_set(
    a: Option<Seq<char>>,
    b: Option<Seq<char>>,
    last: Seq<char>,
) -> Seq<char> {
    match a {
        Some(x) => x,
        None => match b {
            Some(y) => y,
            None => last,
        },
    }
}

fn first_of(a: Option<String>, b: Option<String>, last: &str) -> (r: String)
    ensures
        r@ == first_set(opt(a), opt(b), last@),
{
    match a {
        Some(x) => x,
        None => match b {
            Some(y) => y,
            None => own(last),
        },
    }
}

/// The chat endpoint that the settings ask for: with a key the cloud provider,
/// which needs a model; without one a local server. `CONEXUS_LLM_BASE_URL`
/// moves either.
pub open spec fn completion_of(e: CompletionEnv) -> Result<ClientView, CompletionConfigError> {
    match e.openai_key {
        Some(key) => match e.openai_model {
            Some(model) => Ok(
                ClientView {
                    base_url: first_set(
                        e.llm_base_url,
                        e.openai_base_url,
                        OPENAI_DEFAULT_BASE_URL@,
                    ),
                    api_key: key,
                    model,
                },
            ),
            None => Err(CompletionConfigError),
        },
        None => Ok(
            ClientView {
                base_url: first_set(e.llm_base_url, None, OLLAMA_DEFAULT_BASE_URL@),
                api_key: "ollama"@,
                model: first_set(e.ollama_model, None, OLLAMA_DEFAULT_MODEL@),
            },
        ),
    }
}

/// The view of a resolution.
pub open spec fn resolution(
    r: Result<CompletionClient, CompletionConfigError>,
) -> Result<ClientView, CompletionConfigError> {
    match r {
        Ok(c) => Ok(c@),
        Err(e) => Err(e),
    }
}

/// The chat endpoint that the settings ask for.
pub fn resolve<F: Fn(&str) -> Option<String>>(get_env: F) -> (r: Result<
    CompletionClient,
    CompletionConfigError,
>)
    requires
        forall|key: &str| #[trigger] call_requires(get_env, (key,)),
    ensures
        exists|e: CompletionEnv| #[trigger]
            completion_env(get_env, e) && resolution(r) == completion_of(e),
{
    let openai_key: Option<String> = env_nonempty(&get_env, "OPENAI_API_KEY");
    let openai_model: Option<String> = env_nonempty(&get_env, "OPENAI_MODEL");
    let openai_base_url: Option<String> = env_nonempty(&get_env, "OPENAI_BASE_URL");
    let llm_base_url: Option<String> = env_nonempty(&get_env, "CONEXUS_LLM_BASE_URL");
    let ollama_model: Option<String> = env_nonempty(&get_env, "OLLAMA_MODEL");
    let ghost e = CompletionEnv {
        openai_key: opt(openai_key),
        openai_model: opt(openai_model),
        openai_base_url: opt(openai_base_url),
        llm_base_url: opt(llm_base_url),
        ollama_model: opt(ollama_model),
    };
    proof {
        assert(completion_env(get_env, e));
    }
    match openai_key {
        Some(api_key) => match openai_model {
            Some(model) => Ok(
                CompletionClient {
                    base_url: first_of(llm_base_url, openai_base_url, OPENAI_DEFAULT_BASE_URL),
                    api_key,
                    model,
                },
            ),
            None => Err(CompletionConfigError),
        },
        None => Ok(
            CompletionClient {
                base_url: first_of(llm_base_url, None, OLLAMA_DEFAULT_BASE_URL),
                api_key: own("ollama"),
                model: first_of(ollama_model, None, OLLAMA_DEFAULT_MODEL),
            },
        ),
    }
}

/// The chat endpoint's address, where the settings name one: no default takes
/// its place.
pub fn resolve_chat_base_url<F: Fn(&str) -> Option<String>>(get_env: F) -> (r: Option<String>)
    requires
        forall|key: &str| #[trigger] call_requires(get_env, (key,)),
    ensures
        match r {
            Some(url) => env_says(get_env, "CONEXUS_LLM_BASE_URL", Some(url@)) || (env_says(
                get_env,
                "CONEXUS_LLM_BASE_URL",
                None,
            ) && env_says(get_env, "OPENAI_BASE_URL", Some(url@))),
            None => env_says(get_env, "CONEXUS_LLM_BASE_URL", None) && env_says(
                get_env,
                "OPENAI_BASE_URL",
                None,
            ),
        },
{
    match env_nonempty(&get_env, "CONEXUS_LLM_BASE_URL") {
        Some(url) => Some(url),
        None => env_nonempty(&get_env, "OPENAI_BASE_URL"),
    }
}

/// With the cloud provider's key and no model there is no endpoint: no model
/// takes its place in silence.
pub proof fn the_cloud_provider_needs_a_model(e: CompletionEnv)
    ensures
        (e.openai_key is Some && e.openai_model is None) <==> completion_of(e) is Err,
{
}

// ---------------------------------------------------------------------
// Talking to the endpoint
// ---------------------------------------------------------------------

/// A request to the endpoint failed.
#[derive(Debug, PartialEq, Eq)]
pub struct ChatError(pub String);

impl ChatError {
    /// What happened, in words.
    pub fn message(&self) -> (r: String)
        ensures
            r@ == "chat completion request failed: "@ + self.0@,
    {
        cat2("chat completion request failed: ", self.0.as_str())
    }
}

/// One part of a conversation: who says what.
#[derive(Debug)]
pub struct ChatMessage {
    pub role: String,
    pub content: String,
}

pub struct ChatMessageView {
    pub role: Seq<char>,
    pub content: Seq<char>,
}

impl View for ChatMessage {
    type V = ChatMessageView;

    open spec fn view(&self) -> ChatMessageView {
        ChatMessageView { role: self.role@, content: self.content@ }
    }
}

/// A conversation as a JSON list.
pub open spec fn conversation(v: Seq<ChatMessageView>) -> JsonView {
    JsonView::List(
        v.map_values(
            |m: ChatMessageView|
                JsonView::Object(
                    map![
                    "role"@ => JsonView::Text(m.role),
                    "content"@ => JsonView::Text(m.content)
                ],
                ),
        ),
    )
}

/// The body of a request.
pub open spec fn chat_request(
    model: Seq<char>,
    messages: Seq<ChatMessageView>,
    temperature: Option<serde_json::Number>,
    max_tokens: Option<u32>,
) -> JsonView {
    let base = map![
        "model"@ => JsonView::Text(model),
        "messages"@ => conversation(messages),
        "temperature"@ => (match temperature {
            Some(t) => JsonView::Num(t),
            None => JsonView::Null,
        })
    ];
    match max_tokens {
        Some(n) => JsonView::Object(base.insert("max_tokens"@, int_json(n as int))),
        None => JsonView::Object(base),
    }
}

/// What came back from the endpoint.
#[derive(Debug)]
pub enum ChatReply {
    /// Nothing: this went wrong.
    Failed(String),
    /// A refusal with this status.
    Refused(String),
    /// The contents of the choices; a choice may have none.
    Choices(Vec<Option<String>>),
}

/// The endpoint's answer: the content of the first choice, empty where it has
/// none.
pub open spec fn chat_answer(reply: ChatReply) -> Result<Seq<char>, Seq<char>> {
    match reply {
        ChatReply::Failed(e) => Err(e@),
        ChatReply::Refused(status) => Err("HTTP "@ + status@),
        ChatReply::Choices(v) => if v@.len() == 0 {
            Err("no choices in response"@)
        } else {
            match v@[0] {
                Some(s) => Ok(s@),
                None => Ok(""@),
            }
        },
    }
}

/// Where an answer is asked for.
pub open spec fn chat_address(base_url: Seq<char>) -> Seq<char> {
    without_trailing(base_url, '/') + "/chat/completions"@
}

impl CompletionClient {
    /// Where requests go.
    pub fn chat_url(&self) -> (r: String)
        ensures
            r@ == without_trailing(self@.base_url, '/') + "/chat/completions"@,
            r@ == chat_address(self@.base_url),
    {
        let base: String = trim_end_of(self.base_url.as_str(), '/');
        cat2(base.as_str(), "/chat/completions")
    }

    /// The body of a request.
    pub fn chat_body(
        &self,
        messages: &Vec<ChatMessage>,
        temperature: Option<serde_json::Number>,
        max_tokens: Option<u32>,
    ) -> (r: Json)
        ensures
            r@ == chat_request(
                self@.model,
                messages@.map_values(|m: ChatMessage| m@),
                temperature,
                max_tokens,
            ),
    {
        let mut items: Items = Items::new();
        let ghost shape = |m: ChatMessageView|
            JsonView::Object(
                map![
                "role"@ => JsonView::Text(m.role),
                "content"@ => JsonView::Text(m.content)
            ],
            );
        let mut i: usize = 0;
        while i < messages.len()
            invariant
                i <= messages@.len(),
                items@.len() == i,
                shape == (|m: ChatMessageView|
                    JsonView::Object(
                        map![
                        "role"@ => JsonView::Text(m.role),
                        "content"@ => JsonView::Text(m.content)
                    ],
                    )),
                forall|k: int| 0 <= k < i ==> #[trigger] items@[k] == shape(messages@[k]@),
            decreases messages@.len() - i,
        {
            let mut f: Fields = Fields::new();
            f.put("role", jtext(messages[i].role.as_str()));
            f.put("content", jtext(messages[i].content.as_str()));
            items.push(f.done());
            i = i + 1;
        }
        proof {
            assert(items@ =~= messages@.map_values(|m: ChatMessage| m@).map_values(shape));
        }
        let mut f: Fields = Fields::new();
        f.put("model", jtext(self.model.as_str()));
        f.put("messages", items.done());
        match temperature {
            Some(t) => {
                f.put("temperature", Json::Num(t));
            },
            None => {
                f.put("temperature", Json::Null);
            },
        }
        match max_tokens {
            Some(n) => {
                f.put("max_tokens", jint(n as i64));
            },
            None => {},
        }
        f.done()
    }

    /// What the endpoint said.
    pub fn chat(reply: ChatReply) -> (r: Result<String, ChatError>)
        ensures
            match r {
                Ok(s) => chat_answer(reply) == Ok::<Seq<char>, Seq<char>>(s@),
                Err(e) => chat_answer(reply) == Err::<Seq<char>, Seq<char>>(e.0@),
            },
    {
        match reply {
            ChatReply::Failed(e) => Err(ChatError(e)),
            ChatReply::Refused(status) => Err(ChatError(cat2("HTTP ", status.as_str()))),
            ChatReply::Choices(v) => {
                if v.len() == 0 {
                    return Err(ChatError(own("no choices in response")));
                }
                match &v[0] {
                    Some(s) => Ok(own(s.as_str())),
                    None => Ok(own("")),
                }
            },
        }
    }
}

} // verus!
