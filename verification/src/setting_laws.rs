//! What the settings of the server lead to, and what is asked of the models.

use crate::completion_client::{
    chat_address, chat_answer, chat_request, completion_env, completion_of, ChatMessageView,
    ChatReply, CompletionEnv,
};
use crate::context_window::{
    budget_view, context_budget, props_address, subject_chars, told_window, window_view,
};
use crate::embedding_client::{
    embed_address, embed_request, embedding_env, embedding_of, EmbeddingEnv,
};
use crate::env::{env_says, number_in};
use crate::json::{field, int_json, list_field, text_field, JsonView};
use crate::message_suggestions::{ends_in_word, head_of, subject_of, unquoted, words};
use crate::text::{holds, is_space, joined, trimmed, without_trailing};
use vstd::prelude::*;

verus! {

/// Every setting is read under its own name.
pub proof fn settings_are_read_by_name<F: Fn(&str) -> Option<String>>(
    get_env: F,
    c: CompletionEnv,
    e: EmbeddingEnv,
)
    ensures
        completion_env(get_env, c) ==> {
            &&& env_says(get_env, "OPENAI_API_KEY", c.openai_key)
            &&& env_says(get_env, "OPENAI_MODEL", c.openai_model)
            &&& env_says(get_env, "OPENAI_BASE_URL", c.openai_base_url)
            &&& env_says(get_env, "CONEXUS_LLM_BASE_URL", c.llm_base_url)
            &&& env_says(get_env, "OLLAMA_MODEL", c.ollama_model)
        },
        embedding_env(get_env, e) ==> {
            &&& env_says(get_env, "OPENAI_API_KEY", e.openai_key)
            &&& env_says(get_env, "OPENAI_BASE_URL", e.openai_base_url)
            &&& env_says(get_env, "CONEXUS_LLM_BASE_URL", e.llm_base_url)
            &&& env_says(get_env, "CONEXUS_EMBEDDING_MODEL", e.model)
            &&& env_says(get_env, "CONEXUS_EMBEDDING_DIMENSION", e.dimension)
        },
{
}

/// A setting is what the environment holds under its name, without the spaces
/// around it; one of spaces alone is not set.
pub proof fn settings_come_from_the_environment<F: Fn(&str) -> Option<String>>(
    get_env: F,
    key: &str,
    value: Option<Seq<char>>,
)
    requires
        env_says(get_env, key, value),
    ensures
        exists|raw: Option<String>|
            #![trigger call_ensures(get_env, (key,), raw)]
            {
                &&& call_ensures(get_env, (key,), raw)
                &&& value is Some ==> raw is Some && value->0 == trimmed(raw->0@)
                    && value->0.len() > 0
                &&& value is None ==> raw is None || trimmed(raw->0@).len() == 0
            },
{
    let raw = choose|raw: Option<String>|
        #[trigger] call_ensures(get_env, (key,), raw) && crate::env::setting(crate::text::opt(raw))
            == value;
    assert(call_ensures(get_env, (key,), raw));
}

/// With a key of the cloud provider, answers come from that provider, under that
/// key and by the model that is set, without which there are none; without a key
/// they come from a local server. An address that is set for the models goes
/// before the provider's.
pub proof fn keys_choose_the_provider(e: CompletionEnv)
    ensures
        ({
            let r = completion_of(e);
            &&& (e.openai_key is Some && e.openai_model is None) ==> r is Err
            &&& (e.openai_key is None || e.openai_model is Some) ==> r is Ok
            &&& (e.openai_key is Some && e.openai_model is Some) ==> {
                &&& Some(r->Ok_0.api_key) == e.openai_key
                &&& Some(r->Ok_0.model) == e.openai_model
                &&& e.llm_base_url is Some ==> Some(r->Ok_0.base_url) == e.llm_base_url
                &&& (e.llm_base_url is None && e.openai_base_url is Some) ==> Some(
                    r->Ok_0.base_url,
                ) == e.openai_base_url
                &&& (e.llm_base_url is None && e.openai_base_url is None) ==> r->Ok_0.base_url
                    == "https://api.openai.com/v1"@
            }
            &&& e.openai_key is None ==> {
                &&& r->Ok_0.api_key == "ollama"@
                &&& e.llm_base_url is Some ==> Some(r->Ok_0.base_url) == e.llm_base_url
                &&& e.llm_base_url is None ==> r->Ok_0.base_url == "http://localhost:11434/v1"@
                &&& e.ollama_model is Some ==> Some(r->Ok_0.model) == e.ollama_model
                &&& e.ollama_model is None ==> r->Ok_0.model == "qwen3:1.7b"@
            }
        }),
{
}

/// Vectors come from the provider of the answers: with a key from the cloud,
/// without one from the local server. Each provider has its address, its model
/// and its dimension, which the settings replace; a dimension that is no number
/// replaces nothing.
pub proof fn keys_choose_the_provider_of_vectors(e: EmbeddingEnv, n: nat)
    ensures
        ({
            let v = embedding_of(e);
            &&& e.model is Some ==> Some(v.model) == e.model
            &&& (e.dimension is Some && number_in(e.dimension->0, u32::MAX as nat) == Some(n))
                ==> v.dimension == n
            &&& e.openai_key is Some ==> {
                &&& Some(v.api_key) == e.openai_key
                &&& e.openai_base_url is Some ==> Some(v.base_url) == e.openai_base_url
                &&& e.openai_base_url is None ==> v.base_url == "https://api.openai.com/v1"@
                &&& e.model is None ==> v.model == "text-embedding-3-large"@
                &&& (e.dimension is None || number_in(e.dimension->0, u32::MAX as nat) is None)
                    ==> v.dimension == 1536
            }
            &&& e.openai_key is None ==> {
                &&& v.api_key == "ollama"@
                &&& e.llm_base_url is Some ==> Some(v.base_url) == e.llm_base_url
                &&& e.llm_base_url is None ==> v.base_url == "http://localhost:11434/v1"@
                &&& e.model is None ==> v.model == "qwen3-embedding:0.6b"@
                &&& (e.dimension is None || number_in(e.dimension->0, u32::MAX as nat) is None)
                    ==> v.dimension == 1024
            }
        }),
{
}

/// A request for an answer carries the model and the conversation, message by
/// message, and a limit just where there is one.
pub proof fn requests_carry_the_conversation(
    model: Seq<char>,
    messages: Seq<ChatMessageView>,
    temperature: Option<serde_json::Number>,
    limit: Option<u32>,
    i: int,
)
    requires
        0 <= i < messages.len(),
    ensures
        ({
            let j = chat_request(model, messages, temperature, limit);
            let list = list_field(j, "messages"@);
            &&& text_field(j, "model"@) == Some(model)
            &&& list is Some && list->0.len() == messages.len()
            &&& text_field(list->0[i], "role"@) == Some(messages[i].role)
            &&& text_field(list->0[i], "content"@) == Some(messages[i].content)
            &&& limit is Some ==> field(j, "max_tokens"@) == Some(int_json(limit->0 as int))
            &&& limit is None ==> field(j, "max_tokens"@) is None
            &&& temperature is Some ==> field(j, "temperature"@) == Some(
                JsonView::Num(temperature->0),
            )
        }),
{
    reveal_strlit("model");
    reveal_strlit("messages");
    reveal_strlit("temperature");
    reveal_strlit("max_tokens");
    assert("model"@.len() == 5);
    assert("messages"@.len() == 8);
    assert("temperature"@.len() == 11);
    assert("max_tokens"@.len() == 10);
    reveal_strlit("role");
    reveal_strlit("content");
    assert("role"@.len() == 4);
    assert("content"@.len() == 7);
}

/// The answer is the first of the choices; without a choice there is none, and a
/// refusal and a failure say what went wrong.
pub proof fn the_first_choice_is_the_answer(reply: ChatReply)
    ensures
        reply matches ChatReply::Choices(v) ==> {
            &&& v@.len() == 0 ==> chat_answer(reply) is Err
            &&& v@.len() > 0 ==> chat_answer(reply) is Ok
            &&& (v@.len() > 0 && v@[0] is Some) ==> chat_answer(reply)->Ok_0 == v@[0]->0@
            &&& (v@.len() > 0 && v@[0] is None) ==> chat_answer(reply)->Ok_0 == ""@
        },
        reply matches ChatReply::Refused(status) ==> chat_answer(reply) is Err && holds(
            chat_answer(reply)->Err_0,
            status@,
        ),
        reply matches ChatReply::Failed(e) ==> chat_answer(reply) == Err::<Seq<char>, Seq<char>>(
            e@,
        ),
{
    if let ChatReply::Refused(status) = reply {
        let none = Seq::<char>::empty();
        assert("HTTP "@ + status@ =~= "HTTP "@ + status@ + none);
        crate::text_laws::sums_hold_their_parts("HTTP "@, status@, none);
    }
}

/// A request for vectors carries the model, the dimension and the texts, one for
/// one and in their order.
pub proof fn requests_carry_the_texts(
    model: Seq<char>,
    inputs: Seq<Seq<char>>,
    dimension: int,
    i: int,
)
    requires
        0 <= i < inputs.len(),
    ensures
        ({
            let j = embed_request(model, inputs, dimension);
            let list = list_field(j, "input"@);
            &&& text_field(j, "model"@) == Some(model)
            &&& field(j, "dimensions"@) == Some(int_json(dimension))
            &&& list is Some && list->0.len() == inputs.len()
            &&& list->0[i] == JsonView::Text(inputs[i])
        }),
{
    reveal_strlit("model");
    reveal_strlit("input");
    reveal_strlit("dimensions");
    assert("model"@.len() == 5);
    assert("input"@.len() == 5);
    assert("dimensions"@.len() == 10);
    assert("input"@[0] == 'i');
    assert("model"@[0] == 'm');
}

/// Requests go to the address that is set; slashes at its end change nothing.
pub proof fn requests_go_to_the_address(base: Seq<char>)
    ensures
        base.len() == 0 || base.last() != '/' ==> {
            &&& chat_address(base) == base + "/chat/completions"@
            &&& embed_address(base) == base + "/embeddings"@
        },
        chat_address(base.push('/')) == chat_address(base),
        embed_address(base.push('/')) == embed_address(base),
{
    assert(base.push('/').drop_last() =~= base);
    let t = base.push('/');
    assert(t.last() == '/');
}

/// The properties of a server stand beside its interface: where the address ends
/// in `/v1`, in its place, and else behind it.
pub proof fn properties_stand_beside_the_interface(root: Seq<char>)
    requires
        root.len() > 0,
        root.last() != '/',
    ensures
        props_address(root + "/v1"@) == root + "/props"@,
        props_address(root + "/v1"@ + "/"@) == root + "/props"@,
        root.len() < 3 || root.subrange(root.len() - 3, root.len() as int) != "/v1"@
            ==> props_address(root) == root + "/props"@,
{
    reveal_strlit("/v1");
    reveal_strlit("/");
    assert("/v1"@.len() == 3 && "/v1"@[2] == '1');
    assert("/"@.len() == 1 && "/"@[0] == '/');
    let a = root + "/v1"@;
    let b = a + "/"@;
    assert(b.drop_last() =~= a);
    assert(a.last() == '1');
    assert(b.last() == '/');
    assert(without_trailing(a, '/') == a);
    assert(without_trailing(b, '/') == without_trailing(b.drop_last(), '/'));
    assert(a.subrange(a.len() - 3, a.len() as int) =~= "/v1"@);
    assert(a.subrange(0, a.len() - 3) =~= root);
}

/// The room for a context: half of what the window leaves beside one thousand
/// five hundred and thirty-six tokens, rounded down, but two hundred and
/// fifty-six words at the least; and a million where no window is known.
pub proof fn budgets_follow_the_window(w: u64)
    ensures
        context_budget(None) == 1_000_000,
        w >= 2048 ==> 2 * context_budget(Some(w)) <= w - 1536 < 2 * context_budget(Some(w)) + 2,
        w <= 2048 ==> context_budget(Some(w)) == 256,
{
}

/// The room for the text that a subject is made of: two characters for each token
/// that the window leaves beside one hundred and twenty-eight, at least two and
/// at most four thousand, which it is where no window is known.
pub proof fn subject_room_follows_the_window(w: u64)
    ensures
        subject_chars(None) == 4000,
        w <= 129 ==> subject_chars(Some(w)) == 2,
        129 <= w <= 2128 ==> subject_chars(Some(w)) == 2 * (w - 128),
        w >= 2128 ==> subject_chars(Some(w)) == 4000,
{
}

/// The window that is set goes before any other; without one it is what was
/// noted for the address, and where nothing was, the server is asked for it.
pub proof fn set_windows_go_first(
    set: Seq<char>,
    url: Seq<char>,
    cache: Map<Seq<char>, Option<u64>>,
    n: nat,
)
    ensures
        number_in(set, u64::MAX as nat) == Some(n) && n <= u64::MAX ==> (window_view(
            Some(set),
            Some(url),
            cache,
        ) == Ok::<Option<u64>, Seq<char>>(Some(n as u64))),
        number_in(set, u64::MAX as nat) is None ==> (window_view(Some(set), Some(url), cache) == Ok::<
            Option<u64>,
            Seq<char>,
        >(Some(4096u64))),
        cache.dom().contains(url) ==> window_view(None, Some(url), cache) == Ok::<
            Option<u64>,
            Seq<char>,
        >(cache[url]),
        !cache.dom().contains(url) ==> window_view(None, Some(url), cache) == Err::<
            Option<u64>,
            Seq<char>,
        >(props_address(url)),
        window_view(None, None, cache) == Ok::<Option<u64>, Seq<char>>(None),
        told_window(Some(0)) is None,
        told_window(None) is None,
        forall|k: u64| k > 0 ==> #[trigger] told_window(Some(k)) == Some(k),
{
}

/// The room that is set goes before what the window leaves; a setting that is no
/// number means a million.
pub proof fn set_budgets_go_first(
    set: Seq<char>,
    window: Result<Option<u64>, Seq<char>>,
    n: nat,
)
    ensures
        number_in(set, u64::MAX as nat) == Some(n) && n <= u64::MAX ==> budget_view(
            Some(set),
            window,
        ) == Ok::<u64, Seq<char>>(n as u64),
        number_in(set, u64::MAX as nat) is None ==> budget_view(Some(set), window) == Ok::<
            u64,
            Seq<char>,
        >(1_000_000u64),
        window matches Ok(w) ==> (budget_view(None, window) matches Ok(r) && r == context_budget(w)),
        window matches Err(url) ==> budget_view(None, window) == Err::<u64, Seq<char>>(url),
{
}

// ---------------------------------------------------------------------
// Subjects
// ---------------------------------------------------------------------

/// Texts put behind one another.
pub open spec fn chained(parts: Seq<Seq<char>>) -> Seq<char>
    decreases parts.len(),
{
    if parts.len() == 0 {
        Seq::empty()
    } else {
        chained(parts.drop_last()) + parts.last()
    }
}

/// The words of a text are the text without its spaces, cut where spaces were:
/// put behind one another they give every other character, in its order, and
/// each says something and has no space.
pub proof fn words_keep_every_character(s: Seq<char>)
    ensures
        chained(words(s)) == s.filter(|c: char| !is_space(c)),
        forall|i: int| 0 <= i < words(s).len() ==> (#[trigger] words(s)[i]).len() > 0,
        ends_in_word(s) ==> words(s).len() > 0,
    decreases s.len(),
{
    reveal(Seq::filter);
    if s.len() > 0 {
        let t = s.drop_last();
        let front = words(t);
        words_keep_every_character(t);
        if !is_space(s.last()) {
            if ends_in_word(t) {
                let last = front.last().push(s.last());
                let all = front.drop_last().push(last);
                assert(all.drop_last() =~= front.drop_last());
                assert(chained(all) =~= chained(front).push(s.last()));
                assert forall|i: int| 0 <= i < all.len() implies (#[trigger] all[i]).len() > 0 by {
                    if i < front.len() - 1 {
                        assert(all[i] == front[i]);
                    }
                }
            } else {
                let all = front.push(seq![s.last()]);
                assert(all.drop_last() =~= front);
                assert(chained(all) =~= chained(front).push(s.last()));
                assert forall|i: int| 0 <= i < all.len() implies (#[trigger] all[i]).len() > 0 by {
                    if i < front.len() {
                        assert(all[i] == front[i]);
                    }
                }
            }
        }
    }
}

/// A space parts words: what stands before it and what stands behind it are
/// words of their own.
pub proof fn spaces_part_words(a: Seq<char>, space: char, b: Seq<char>)
    requires
        is_space(space),
    ensures
        words(a.push(space) + b) == words(a) + words(b),
    decreases b.len(),
{
    let whole = a.push(space) + b;
    if b.len() == 0 {
        assert(whole =~= a.push(space));
        assert(whole.drop_last() =~= a);
        assert(words(a) + words(b) =~= words(a));
    } else {
        let t = b.drop_last();
        assert(whole.drop_last() =~= a.push(space) + t);
        assert(whole.last() == b.last());
        spaces_part_words(a, space, t);
        words_keep_every_character(t);
        if t.len() == 0 {
            assert((a.push(space) + t).last() == space);
        } else {
            assert((a.push(space) + t).last() == t.last());
        }
        if !is_space(b.last()) {
            if ends_in_word(t) {
                let front = words(a) + words(t);
                assert(front.last() == words(t).last());
                assert(front.drop_last() =~= words(a) + words(t).drop_last());
                assert(words(whole) =~= words(a) + words(b));
            } else {
                assert(words(whole) =~= words(a) + words(b));
            }
        }
    }
}

/// A subject that fits holds every word that the model wrote, quotes around the
/// whole aside; one that does not begins as they do and ends in three dots.
pub proof fn subjects_keep_the_words(raw: Seq<char>, i: int)
    ensures
        ({
            let bare = unquoted(trimmed(raw));
            let line = joined(words(bare), " "@);
            &&& line.len() <= 80 ==> subject_of(raw) == line
            &&& (line.len() <= 80 && 0 <= i < words(bare).len()) ==> holds(
                subject_of(raw),
                words(bare)[i],
            )
            &&& line.len() > 80 ==> {
                let cut = subject_of(raw).len() - 3;
                &&& 0 <= cut <= 77
                &&& subject_of(raw).subrange(cut, cut + 3) == "..."@
                &&& subject_of(raw).subrange(0, cut) == line.subrange(0, cut)
            }
        }),
{
    reveal_strlit("...");
    assert("..."@.len() == 3);
    let bare = unquoted(trimmed(raw));
    let line = joined(words(bare), " "@);
    if 0 <= i < words(bare).len() {
        crate::text_laws::joined_texts_hold_every_part(words(bare), " "@, i);
    }
    if line.len() > 80 {
        let head = line.subrange(0, 77);
        let kept = crate::text::trim_back(head);
        crate::text_laws::back_trimming_takes_whitespace_only(head);
        assert(subject_of(raw) == kept + "..."@);
        assert(subject_of(raw).subrange(kept.len() as int, kept.len() as int + 3) =~= "..."@);
        assert(subject_of(raw).subrange(0, kept.len() as int) =~= kept);
        assert(line.subrange(0, kept.len() as int) =~= head.subrange(0, kept.len() as int));
    }
}

/// Quotes around a subject are taken away, in pairs of one sort or of two; a
/// text without them stays as it is.
pub proof fn quotes_around_are_taken_away(s: Seq<char>, a: char, b: char)
    requires
        a == '"' || a == '\'',
        b == '"' || b == '\'',
    ensures
        unquoted(seq![a] + s + seq![b]) == trimmed(s),
        s.len() > 0 && s[0] != '"' && s[0] != '\'' ==> unquoted(s) == s,
        s.len() > 0 && s.last() != '"' && s.last() != '\'' ==> unquoted(s) == s,
{
    let whole = seq![a] + s + seq![b];
    assert(whole[0] == a);
    assert(whole.last() == b);
    assert(whole.subrange(1, whole.len() - 1) =~= s);
}

/// What a model is given of a text is the text where it fits, and else its
/// first part.
pub proof fn heads_are_first_parts(s: Seq<char>, n: nat)
    ensures
        s.len() <= n ==> head_of(s, n as int) == s,
        s.len() > n ==> head_of(s, n as int).len() == n,
        forall|i: int| 0 <= i < head_of(s, n as int).len() ==> head_of(s, n as int)[i] == s[i],
{
}

} // verus!
