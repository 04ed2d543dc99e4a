//! Subjects for messages that were sent without one.

use crate::completion_client::{first_set, ChatMessage, CompletionClient};
use crate::env::{env_nonempty, env_says};
use crate::text::{
    cat2, chars_of, is_space, join, joined, opt, own, text_of, texts, trim, trim_back, trimmed,
};
use vstd::prelude::*;

verus! {

/// Where a local server listens.
pub const DEFAULT_BASE_URL: &'static str = "http://localhost:11434/v1";

/// What the model is asked to do.
pub const SYSTEM_PROMPT: &'static str = "Summarize the user's message in 6 words or fewer as an email-style subject line. Return only the subject text, no quotes, no prefix, no punctuation at the end.";

/// The longest subject.
pub const MAX_SUBJECT_LEN: usize = 80;

/// How many tokens the model may answer with.
pub const MAX_COMPLETION_TOKENS: u32 = 32;

/// Whether a model for subjects is set.
pub fn subject_model_configured<F: Fn(&str) -> Option<String>>(get_env: &F) -> (r: bool)
    requires
        call_requires(*get_env, ("CONEXUS_SUBJECT_MODEL",)),
    ensures
        exists|model: Option<Seq<char>>| #[trigger]
            env_says(*get_env, "CONEXUS_SUBJECT_MODEL", model) && r == (model is Some),
{
    let model: Option<String> = env_nonempty(get_env, "CONEXUS_SUBJECT_MODEL");
    let ghost m = opt(model);
    proof {
        assert(env_says(*get_env, "CONEXUS_SUBJECT_MODEL", m));
    }
    model.is_some()
}

// ---------------------------------------------------------------------
// Tidying a subject
// ---------------------------------------------------------------------

/// The words of a text: its runs of characters that are no whitespace.
pub open spec fn words(s: Seq<char>) -> Seq<Seq<char>>
    decreases s.len(),
{
    if s.len() == 0 {
        Seq::empty()
    } else {
        let front = words(s.drop_last());
        if is_space(s.last()) {
            front
        } else if ends_in_word(s.drop_last()) {
            front.drop_last().push(front.last().push(s.last()))
        } else {
            front.push(seq![s.last()])
        }
    }
}

/// Whether a text ends in a word.
pub open spec fn ends_in_word(s: Seq<char>) -> bool {
    s.len() > 0 && !is_space(s.last())
}

/// Whether a character is a quotation mark.
pub open spec fn is_quote(c: char) -> bool {
    c == '"' || c == '\''
}

/// A text without the quotation marks that enclose it.
pub open spec fn unquoted(s: Seq<char>) -> Seq<char> {
    if s.len() >= 2 && is_quote(s[0]) && is_quote(s.last()) {
        trimmed(s.subrange(1, s.len() - 1))
    } else {
        s
    }
}

/// A text on one line: its words with one space between them.
pub open spec fn one_line(s: Seq<char>) -> Seq<char> {
    joined(words(s), " "@)
}

/// A subject: without the quotation marks that enclose it, on one line, and
/// cut with an ellipsis where it is too long.
pub open spec fn subject_of(raw: Seq<char>) -> Seq<char> {
    let line = one_line(unquoted(trimmed(raw)));
    if line.len() > MAX_SUBJECT_LEN {
        trim_back(line.subrange(0, MAX_SUBJECT_LEN - 3)) + "..."@
    } else {
        line
    }
}

proof fn lemma_words_open(s: Seq<char>)
    ensures
        ends_in_word(s) ==> words(s).len() > 0,
    decreases s.len(),
{
    if s.len() > 0 && !is_space(s.last()) {
        lemma_words_open(s.drop_last());
    }
}

fn words_of(s: &str) -> (r: Vec<String>)
    ensures
        texts(r@) == words(s@),
{
    let v: Vec<char> = chars_of(s);
    let mut out: Vec<String> = Vec::new();
    let mut word: String = String::new();
    let mut i: usize = 0;
    let mut open: bool = false;
    proof {
        assert(texts(out@) =~= words(v@.subrange(0, 0)));
    }
    while i < v.len()
        invariant
            i <= v@.len(),
            open == ends_in_word(v@.subrange(0, i as int)),
            open ==> words(v@.subrange(0, i as int)) == texts(out@).push(word@),
            !open ==> words(v@.subrange(0, i as int)) == texts(out@) && word@.len() == 0,
        decreases v@.len() - i,
    {
        let ghost old_out = out@;
        let ghost old_word = word@;
        proof {
            let now = v@.subrange(0, i + 1);
            assert(now.drop_last() =~= v@.subrange(0, i as int));
            assert(now.last() == v@[i as int]);
            assert(texts(old_out).push(old_word).drop_last() =~= texts(old_out));
        }
        if v[i].is_whitespace() {
            if open {
                out.push(word);
                word = String::new();
                open = false;
                proof {
                    assert(texts(out@) =~= texts(old_out).push(old_word));
                }
            }
        } else {
            word.push(v[i]);
            proof {
                if !open {
                    assert(word@ =~= seq![v@[i as int]]);
                }
            }
            open = true;
        }
        i = i + 1;
    }
    proof {
        assert(v@.subrange(0, v@.len() as int) =~= v@);
    }
    if open {
        let ghost old_out = out@;
        out.push(word);
        proof {
            assert(texts(out@) =~= texts(old_out).push(word@));
        }
    }
    out
}

/// `s` without its trailing whitespace.
fn trim_end(s: &str) -> (r: String)
    ensures
        r@ == trim_back(s@),
{
    let v: Vec<char> = chars_of(s);
    let mut b: usize = v.len();
    proof {
        assert(v@.subrange(0, v@.len() as int) =~= v@);
    }
    while b > 0 && v[b - 1].is_whitespace()
        invariant
            b <= v@.len(),
            trim_back(v@) == trim_back(v@.subrange(0, b as int)),
        decreases b,
    {
        proof {
            assert(v@.subrange(0, b as int).drop_last() =~= v@.subrange(0, b - 1));
        }
        b = b - 1;
    }
    text_of(&v, 0, b)
}

/// A subject out of what a model said.
pub fn truncate(subject: &str) -> (r: String)
    ensures
        r@ == subject_of(subject@),
{
    let whole: String = trim(subject);
    let v: Vec<char> = chars_of(whole.as_str());
    let n: usize = v.len();
    let bare: String = if n >= 2 && (v[0] == '"' || v[0] == '\'') && (v[n - 1] == '"' || v[n - 1]
        == '\'') {
        let inner: String = text_of(&v, 1, n - 1);
        trim(inner.as_str())
    } else {
        whole
    };
    let list: Vec<String> = words_of(bare.as_str());
    let line: String = join(&list, " ");
    let w: Vec<char> = chars_of(line.as_str());
    if w.len() > MAX_SUBJECT_LEN {
        let head: String = text_of(&w, 0, MAX_SUBJECT_LEN - 3);
        let cut: String = trim_end(head.as_str());
        cat2(cut.as_str(), "...")
    } else {
        line
    }
}

proof fn lemma_trim_back_short(s: Seq<char>)
    ensures
        trim_back(s).len() <= s.len(),
        forall|i: int| 0 <= i < trim_back(s).len() ==> #[trigger] trim_back(s)[i] == s[i],
    decreases s.len(),
{
    if s.len() > 0 && is_space(s.last()) {
        lemma_trim_back_short(s.drop_last());
    }
}

proof fn lemma_words_plain(s: Seq<char>)
    ensures
        forall|i: int, j: int|
            0 <= i < words(s).len() && 0 <= j < words(s)[i].len() ==> !is_space(
                #[trigger] words(s)[i][j],
            ),
    decreases s.len(),
{
    if s.len() > 0 {
        let front = words(s.drop_last());
        lemma_words_plain(s.drop_last());
        lemma_words_open(s.drop_last());
        assert forall|i: int, j: int|
            0 <= i < words(s).len() && 0 <= j < words(s)[i].len() implies !is_space(
            #[trigger] words(s)[i][j],
        ) by {
            if !is_space(s.last()) {
                if ends_in_word(s.drop_last()) {
                    if i < front.len() - 1 {
                        assert(words(s)[i] == front[i]);
                        assert(!is_space(front[i][j]));
                    } else if j < front.last().len() {
                        assert(words(s)[i][j] == front[front.len() - 1][j]);
                        assert(!is_space(front[front.len() - 1][j]));
                    }
                } else if i < front.len() {
                    assert(words(s)[i] == front[i]);
                    assert(!is_space(front[i][j]));
                }
            }
        }
    }
}

proof fn lemma_joined_plain(parts: Seq<Seq<char>>)
    requires
        forall|i: int, j: int|
            0 <= i < parts.len() && 0 <= j < parts[i].len() ==> !is_space(#[trigger] parts[i][j]),
    ensures
        forall|k: int|
            0 <= k < joined(parts, " "@).len() ==> #[trigger] joined(parts, " "@)[k] == ' '
                || !is_space(joined(parts, " "@)[k]),
    decreases parts.len(),
{
    reveal_strlit(" ");
    if parts.len() == 1 {
        assert forall|k: int| 0 <= k < joined(parts, " "@).len() implies #[trigger] joined(
            parts,
            " "@,
        )[k] == ' ' || !is_space(joined(parts, " "@)[k]) by {
            assert(!is_space(parts[0][k]));
        }
    } else if parts.len() > 1 {
        let t = parts.drop_last();
        assert forall|i: int, j: int| 0 <= i < t.len() && 0 <= j < t[i].len() implies !is_space(
            #[trigger] t[i][j],
        ) by {
            assert(!is_space(parts[i][j]));
        }
        lemma_joined_plain(t);
        let a = joined(t, " "@);
        assert forall|k: int| 0 <= k < joined(parts, " "@).len() implies #[trigger] joined(
            parts,
            " "@,
        )[k] == ' ' || !is_space(joined(parts, " "@)[k]) by {
            if k < a.len() {
                assert(joined(parts, " "@)[k] == a[k]);
            } else if k > a.len() {
                assert(!is_space(parts[parts.len() - 1][k - a.len() - 1]));
            }
        }
    }
}

/// A subject is never longer than the longest, and stands on one line: the
/// only whitespace in it is the space.
pub proof fn subjects_are_short_lines(raw: Seq<char>)
    ensures
        subject_of(raw).len() <= MAX_SUBJECT_LEN,
        forall|k: int|
            0 <= k < subject_of(raw).len() ==> #[trigger] subject_of(raw)[k] == ' ' || !is_space(
                subject_of(raw)[k],
            ),
{
    let bare = unquoted(trimmed(raw));
    let line = one_line(bare);
    lemma_words_plain(bare);
    lemma_joined_plain(words(bare));
    reveal_strlit("...");
    if line.len() > MAX_SUBJECT_LEN {
        let head = line.subrange(0, MAX_SUBJECT_LEN - 3);
        lemma_trim_back_short(head);
        assert forall|k: int| 0 <= k < subject_of(raw).len() implies #[trigger] subject_of(raw)[k]
            == ' ' || !is_space(subject_of(raw)[k]) by {
            if k < trim_back(head).len() {
                assert(trim_back(head)[k] == head[k]);
                assert(subject_of(raw)[k] == line[k]);
            }
        }
    }
}

// ---------------------------------------------------------------------
// Asking for a subject
// ---------------------------------------------------------------------

/// A request for a subject: whom to ask, and about what.
#[derive(Debug)]
pub struct SubjectRequest {
    pub client: CompletionClient,
    pub content: String,
}

/// The first `n` characters of `s`.
pub open spec fn head_of(s: Seq<char>, n: int) -> Seq<char> {
    if s.len() > n {
        s.subrange(0, n)
    } else {
        s
    }
}

/// The address that is asked for subjects.
pub fn subject_base_url<F: Fn(&str) -> Option<String>>(get_env: &F) -> (r: String)
    requires
        call_requires(*get_env, ("CONEXUS_LLM_BASE_URL",)),
    ensures
        exists|url: Option<Seq<char>>| #[trigger]
            env_says(*get_env, "CONEXUS_LLM_BASE_URL", url) && r@ == first_set(
                url,
                None,
                DEFAULT_BASE_URL@,
            ),
{
    let url: Option<String> = env_nonempty(get_env, "CONEXUS_LLM_BASE_URL");
    let ghost u = opt(url);
    proof {
        assert(env_says(*get_env, "CONEXUS_LLM_BASE_URL", u));
    }
    match url {
        Some(s) => s,
        None => own(DEFAULT_BASE_URL),
    }
}

/// The request for a subject of `content`, of which `max_input_chars`
/// characters may be shown; none where no model is set.
pub fn suggest_subject<F: Fn(&str) -> Option<String>>(
    get_env: &F,
    content: &str,
    max_input_chars: usize,
) -> (r: Option<SubjectRequest>)
    requires
        forall|key: &str| #[trigger] call_requires(*get_env, (key,)),
    ensures
        exists|model: Option<Seq<char>>| #[trigger]
            env_says(*get_env, "CONEXUS_SUBJECT_MODEL", model) && match model {
                None => r is None,
                Some(m) => r is Some && {
                    &&& r->0.client@.model == m
                    &&& r->0.client@.api_key == "ollama"@
                    &&& exists|url: Option<Seq<char>>| #[trigger]
                        env_says(*get_env, "CONEXUS_LLM_BASE_URL", url) && r->0.client@.base_url
                            == first_set(url, None, DEFAULT_BASE_URL@)
                    &&& r->0.content@ == head_of(content@, max_input_chars as int)
                },
            },
{
    let found: Option<String> = env_nonempty(get_env, "CONEXUS_SUBJECT_MODEL");
    let ghost m = opt(found);
    proof {
        assert(env_says(*get_env, "CONEXUS_SUBJECT_MODEL", m));
    }
    let model: String = match found {
        Some(s) => s,
        None => {
            return None;
        },
    };
    let base_url: String = subject_base_url(get_env);
    let v: Vec<char> = chars_of(content);
    let shown: String = if v.len() > max_input_chars {
        text_of(&v, 0, max_input_chars)
    } else {
        own(content)
    };
    Some(
        SubjectRequest {
            client: CompletionClient { base_url, api_key: own("ollama"), model },
            content: shown,
        },
    )
}

/// The conversation that asks for a subject.
pub fn subject_messages(content: &str) -> (r: Vec<ChatMessage>)
    ensures
        r@.len() == 2,
        r@[0].role@ == "system"@ && r@[0].content@ == SYSTEM_PROMPT@,
        r@[1].role@ == "user"@ && r@[1].content@ == content@,
{
    let mut v: Vec<ChatMessage> = Vec::new();
    v.push(ChatMessage { role: own("system"), content: own(SYSTEM_PROMPT) });
    v.push(ChatMessage { role: own("user"), content: own(content) });
    v
}

/// The subject that a model's answer gives; none where the model could not be
/// asked, or said nothing.
pub fn suggested(answer: Option<&str>) -> (r: Option<String>)
    ensures
        match answer {
            None => r is None,
            Some(raw) => if subject_of(raw@).len() == 0 {
                r is None
            } else {
                r is Some && r->0@ == subject_of(raw@)
            },
        },
{
    match answer {
        None => None,
        Some(raw) => {
            let out: String = truncate(raw);
            if out.as_str().is_empty() {
                None
            } else {
                Some(out)
            }
        },
    }
}

} // verus!
