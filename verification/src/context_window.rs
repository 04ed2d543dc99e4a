//! How much text a chat model can take, and what follows from that.

use crate::env::{env_nonempty, env_says, number_in, parse_number};
use crate::text::{cat2, chars_of, opt, opt_str, own, same, text_of, trim_end_of, without_trailing};
use vstd::prelude::*;

verus! {

/// The window where the setting for it is no number.
pub const DEFAULT_WINDOW: u64 = 4096;

/// The budget where nothing limits it.
pub const LEGACY_UNBOUNDED_BUDGET: u64 = 1_000_000;

/// Tokens that are kept for the answer.
pub const ANSWER_RESERVE_TOKENS: u64 = 1024;

/// Tokens that the prompt takes.
pub const PROMPT_OVERHEAD_TOKENS: u64 = 512;

/// Tokens of a word, at worst.
pub const MAX_TOKENS_PER_WORD: u64 = 2;

/// The least budget.
pub const MIN_BUDGET: u64 = 256;

/// The most characters that are needed to find a subject.
pub const SUBJECT_CHARS_CEILING: u64 = 4000;

/// Tokens that are kept for the subject.
pub const SUBJECT_RESERVE_TOKENS: u64 = 128;

/// Characters of a token, at worst.
pub const CHARS_PER_TOKEN: u64 = 2;

// ---------------------------------------------------------------------
// The cache
// ---------------------------------------------------------------------

/// One endpoint and what is known of its window.
#[derive(Debug)]
pub struct CacheEntry {
    pub base_url: String,
    pub window: Option<u64>,
}

/// What is known of endpoints: the window of each that was asked, or that it
/// has none to tell.
#[derive(Debug)]
pub struct WindowCache {
    pub entries: Vec<CacheEntry>,
}

/// The windows by address; of two entries for one address the later counts.
pub open spec fn cache_view(s: Seq<CacheEntry>) -> Map<Seq<char>, Option<u64>>
    decreases s.len(),
{
    if s.len() == 0 {
        Map::empty()
    } else {
        cache_view(s.drop_last()).insert(s.last().base_url@, s.last().window)
    }
}

impl View for WindowCache {
    type V = Map<Seq<char>, Option<u64>>;

    open spec fn view(&self) -> Map<Seq<char>, Option<u64>> {
        cache_view(self.entries@)
    }
}

/// What a cache says of an address.
pub open spec fn cached(m: Map<Seq<char>, Option<u64>>, url: Seq<char>) -> Option<Option<u64>> {
    if m.dom().contains(url) {
        Some(m[url])
    } else {
        None
    }
}

impl WindowCache {
    /// A cache that knows nothing.
    pub fn new() -> (r: WindowCache)
        ensures
            r@ == Map::<Seq<char>, Option<u64>>::empty(),
    {
        WindowCache { entries: Vec::new() }
    }

    /// What is known of an address.
    pub fn cache_get(&self, base_url: &str) -> (r: Option<Option<u64>>)
        ensures
            r == cached(self@, base_url@),
    {
        let mut i: usize = self.entries.len();
        proof {
            assert(self.entries@.subrange(0, self.entries@.len() as int) =~= self.entries@);
        }
        while i > 0
            invariant
                i <= self.entries@.len(),
                cached(self@, base_url@) == cached(
                    cache_view(self.entries@.subrange(0, i as int)),
                    base_url@,
                ),
            decreases i,
        {
            proof {
                assert(self.entries@.subrange(0, i as int).drop_last() =~= self.entries@.subrange(
                    0,
                    i - 1,
                ));
            }
            i = i - 1;
            if same(self.entries[i].base_url.as_str(), base_url) {
                return Some(self.entries[i].window);
            }
        }
        None
    }

    /// Notes the window of an address.
    pub fn cache_set(&mut self, base_url: &str, window: Option<u64>)
        ensures
            final(self)@ == old(self)@.insert(base_url@, window),
    {
        let ghost before = self.entries@;
        self.entries.push(CacheEntry { base_url: own(base_url), window });
        proof {
            assert(self.entries@.drop_last() =~= before);
        }
    }
}

// ---------------------------------------------------------------------
// The window
// ---------------------------------------------------------------------

/// Whether `s` ends in `suffix`.
pub open spec fn ends_in(s: Seq<char>, suffix: Seq<char>) -> bool {
    suffix.len() <= s.len() && s.subrange(s.len() - suffix.len(), s.len() as int) == suffix
}

/// Where a server tells its properties: at its root, which an address that
/// ends in `/v1` is under.
pub open spec fn props_address(base_url: Seq<char>) -> Seq<char> {
    let root = without_trailing(base_url, '/');
    (if ends_in(root, "/v1"@) {
        root.subrange(0, root.len() - 3)
    } else {
        root
    }) + "/props"@
}

/// Where a server tells its properties.
pub fn props_url(base_url: &str) -> (r: String)
    ensures
        r@ == props_address(base_url@),
{
    let root: String = trim_end_of(base_url, '/');
    let v: Vec<char> = chars_of(root.as_str());
    let n: usize = v.len();
    proof {
        reveal_strlit("/v1");
    }
    if n >= 3 && v[n - 3] == '/' && v[n - 2] == 'v' && v[n - 1] == '1' {
        proof {
            assert(root@.subrange(n - 3, n as int) =~= "/v1"@);
        }
        let head: String = text_of(&v, 0, n - 3);
        cat2(head.as_str(), "/props")
    } else {
        proof {
            if n >= 3 && root@.subrange(n - 3, n as int) == "/v1"@ {
                let t = root@.subrange(n - 3, n as int);
                assert(t[0] == v@[n - 3] && t[1] == v@[n - 2] && t[2] == v@[n - 1]);
            }
        }
        cat2(root.as_str(), "/props")
    }
}

/// What a server's answer says of its window: none where it says zero.
pub open spec fn told_window(n_ctx: Option<u64>) -> Option<u64> {
    match n_ctx {
        Some(n) => if n > 0 {
            Some(n)
        } else {
            None
        },
        None => None,
    }
}

/// Notes what a server answered of its window, and returns it. That a server
/// did not answer is noted too, so that it is not asked again.
pub fn note_probe(cache: &mut WindowCache, base_url: &str, n_ctx: Option<u64>) -> (r: Option<u64>)
    ensures
        r == told_window(n_ctx),
        final(cache)@ == old(cache)@.insert(base_url@, told_window(n_ctx)),
{
    let window: Option<u64> = match n_ctx {
        Some(n) => if n > 0 {
            Some(n)
        } else {
            None
        },
        None => None,
    };
    cache.cache_set(base_url, window);
    window
}

/// A quantity that may have to be asked for.
#[derive(Debug, PartialEq, Eq)]
pub enum Sought<T> {
    Known(T),
    /// The server at this address has to be asked first.
    Probe { url: String },
}

/// The window that a setting names: the default where it is no number.
pub open spec fn set_window(s: Seq<char>) -> u64 {
    match number_in(s, u64::MAX as nat) {
        Some(n) => n as u64,
        None => DEFAULT_WINDOW,
    }
}

/// The window by its setting, else by what is known of the endpoint; an
/// endpoint of which nothing is known has to be asked.
pub open spec fn window_view(
    set: Option<Seq<char>>,
    base_url: Option<Seq<char>>,
    cache: Map<Seq<char>, Option<u64>>,
) -> Result<Option<u64>, Seq<char>> {
    match set {
        Some(s) => Ok(Some(set_window(s))),
        None => match base_url {
            None => Ok(None),
            Some(url) => match cached(cache, url) {
                Some(w) => Ok(w),
                None => Err(props_address(url)),
            },
        },
    }
}

/// The view of a quantity that may have to be asked for.
pub open spec fn sought_view<T>(s: Sought<T>) -> Result<T, Seq<char>> {
    match s {
        Sought::Known(x) => Ok(x),
        Sought::Probe { url } => Err(url@),
    }
}

/// The window of the chat model.
pub fn resolve_context_window<F: Fn(&str) -> Option<String>>(
    get_env: &F,
    base_url: Option<&str>,
    cache: &WindowCache,
) -> (r: Sought<Option<u64>>)
    requires
        forall|key: &str| #[trigger] call_requires(*get_env, (key,)),
    ensures
        exists|set: Option<Seq<char>>| #[trigger]
            env_says(*get_env, "CONEXUS_MODEL_CONTEXT_WINDOW", set) && sought_view(r)
                == window_view(set, opt_str(base_url), cache@),
{
    let set: Option<String> = env_nonempty(get_env, "CONEXUS_MODEL_CONTEXT_WINDOW");
    let ghost chosen = opt(set);
    proof {
        assert(env_says(*get_env, "CONEXUS_MODEL_CONTEXT_WINDOW", chosen));
    }
    match &set {
        Some(s) => match parse_number(s.as_str(), u64::MAX) {
            Some(n) => Sought::Known(Some(n)),
            None => Sought::Known(Some(DEFAULT_WINDOW)),
        },
        None => match base_url {
            None => Sought::Known(None),
            Some(url) => match cache.cache_get(url) {
                Some(w) => Sought::Known(w),
                None => Sought::Probe { url: props_url(url) },
            },
        },
    }
}

// ---------------------------------------------------------------------
// Budgets
// ---------------------------------------------------------------------

/// `a - b`, but not below zero.
pub open spec fn minus(a: int, b: int) -> int {
    if a > b {
        a - b
    } else {
        0
    }
}

/// The words of context that fit a window: what answer and prompt leave, at
/// the worst number of tokens for a word, and no less than the least budget;
/// unbounded where the window is unknown.
pub open spec fn context_budget(window: Option<u64>) -> int {
    match window {
        None => LEGACY_UNBOUNDED_BUDGET as int,
        Some(w) => {
            let words = minus(w as int, ANSWER_RESERVE_TOKENS + PROMPT_OVERHEAD_TOKENS)
                / MAX_TOKENS_PER_WORD as int;
            if words > MIN_BUDGET {
                words
            } else {
                MIN_BUDGET as int
            }
        },
    }
}

/// The words of context that fit a window.
pub fn budget_for(window: Option<u64>) -> (r: u64)
    ensures
        r == context_budget(window),
{
    match window {
        None => LEGACY_UNBOUNDED_BUDGET,
        Some(w) => {
            let taken: u64 = ANSWER_RESERVE_TOKENS + PROMPT_OVERHEAD_TOKENS;
            let rest: u64 = if w > taken {
                w - taken
            } else {
                0
            };
            let words: u64 = rest / MAX_TOKENS_PER_WORD;
            if words > MIN_BUDGET {
                words
            } else {
                MIN_BUDGET
            }
        },
    }
}

/// The budget that a setting names: unbounded where it is no number.
pub open spec fn set_budget(s: Seq<char>) -> u64 {
    match number_in(s, u64::MAX as nat) {
        Some(n) => n as u64,
        None => LEGACY_UNBOUNDED_BUDGET,
    }
}

/// The budget by its setting, else by the window.
pub open spec fn budget_view(
    set: Option<Seq<char>>,
    window: Result<Option<u64>, Seq<char>>,
) -> Result<u64, Seq<char>> {
    match set {
        Some(s) => Ok(set_budget(s)),
        None => match window {
            Ok(w) => Ok(context_budget(w) as u64),
            Err(url) => Err(url),
        },
    }
}

/// How many words of context a request may hold.
pub fn resolve_max_context_tokens<F: Fn(&str) -> Option<String>>(
    get_env: &F,
    base_url: Option<&str>,
    cache: &WindowCache,
) -> (r: Sought<u64>)
    requires
        forall|key: &str| #[trigger] call_requires(*get_env, (key,)),
    ensures
        exists|set: Option<Seq<char>>, window: Option<Seq<char>>|
            #![trigger env_says(*get_env, "CONEXUS_MAX_CONTEXT_TOKENS", set), env_says(*get_env, "CONEXUS_MODEL_CONTEXT_WINDOW", window)]
            env_says(*get_env, "CONEXUS_MAX_CONTEXT_TOKENS", set) && env_says(
                *get_env,
                "CONEXUS_MODEL_CONTEXT_WINDOW",
                window,
            ) && sought_view(r) == budget_view(
                set,
                window_view(window, opt_str(base_url), cache@),
            ),
{
    let set: Option<String> = env_nonempty(get_env, "CONEXUS_MAX_CONTEXT_TOKENS");
    let window: Sought<Option<u64>> = resolve_context_window(get_env, base_url, cache);
    let ghost chosen = opt(set);
    proof {
        assert(env_says(*get_env, "CONEXUS_MAX_CONTEXT_TOKENS", chosen));
        let w = choose|w: Option<Seq<char>>| #[trigger]
            env_says(*get_env, "CONEXUS_MODEL_CONTEXT_WINDOW", w) && sought_view(window)
                == window_view(w, opt_str(base_url), cache@);
        assert(env_says(*get_env, "CONEXUS_MODEL_CONTEXT_WINDOW", w));
    }
    match &set {
        Some(s) => match parse_number(s.as_str(), u64::MAX) {
            Some(n) => Sought::Known(n),
            None => Sought::Known(LEGACY_UNBOUNDED_BUDGET),
        },
        None => match window {
            Sought::Known(w) => Sought::Known(budget_for(w)),
            Sought::Probe { url } => Sought::Probe { url },
        },
    }
}

/// The characters of a message that are shown to the model that finds its
/// subject: what fits the window, at the worst number of characters for a
/// token, and no more than a subject needs.
pub open spec fn subject_chars(window: Option<u64>) -> int {
    match window {
        None => SUBJECT_CHARS_CEILING as int,
        Some(w) => {
            let left = minus(w as int, SUBJECT_RESERVE_TOKENS as int);
            let tokens = if left > 1 {
                left
            } else {
                1
            };
            if tokens * CHARS_PER_TOKEN < SUBJECT_CHARS_CEILING {
                tokens * CHARS_PER_TOKEN
            } else {
                SUBJECT_CHARS_CEILING as int
            }
        },
    }
}

/// The characters of a message that are shown to the model that finds its
/// subject.
pub fn subject_chars_for(window: Option<u64>) -> (r: u64)
    ensures
        r == subject_chars(window),
{
    match window {
        None => SUBJECT_CHARS_CEILING,
        Some(w) => {
            let left: u64 = if w > SUBJECT_RESERVE_TOKENS {
                w - SUBJECT_RESERVE_TOKENS
            } else {
                0
            };
            let tokens: u64 = if left > 1 {
                left
            } else {
                1
            };
            if tokens < SUBJECT_CHARS_CEILING / CHARS_PER_TOKEN {
                tokens * CHARS_PER_TOKEN
            } else {
                SUBJECT_CHARS_CEILING
            }
        },
    }
}

/// How many characters of a message may be shown to the model that finds its
/// subject.
pub fn resolve_subject_input_chars<F: Fn(&str) -> Option<String>>(
    get_env: &F,
    base_url: Option<&str>,
    cache: &WindowCache,
) -> (r: Sought<u64>)
    requires
        forall|key: &str| #[trigger] call_requires(*get_env, (key,)),
    ensures
        exists|set: Option<Seq<char>>| #[trigger]
            env_says(*get_env, "CONEXUS_MODEL_CONTEXT_WINDOW", set) && match window_view(
                set,
                opt_str(base_url),
                cache@,
            ) {
                Ok(w) => sought_view(r) == Ok::<u64, Seq<char>>(subject_chars(w) as u64),
                Err(url) => sought_view(r) == Err::<u64, Seq<char>>(url),
            },
{
    match resolve_context_window(get_env, base_url, cache) {
        Sought::Known(w) => Sought::Known(subject_chars_for(w)),
        Sought::Probe { url } => Sought::Probe { url },
    }
}

/// A budget is never below the least one.
pub proof fn budgets_have_a_floor(window: Option<u64>)
    ensures
        context_budget(window) >= MIN_BUDGET,
{
}

/// A message is never cut to less than what one token may hold, nor shown
/// beyond the ceiling; and what is shown fits the window wherever the window
/// holds more than is kept for the subject.
pub proof fn subject_input_fits(window: Option<u64>)
    ensures
        CHARS_PER_TOKEN <= subject_chars(window) <= SUBJECT_CHARS_CEILING,
        match window {
            Some(w) => w > SUBJECT_RESERVE_TOKENS ==> subject_chars(window) <= (w
                - SUBJECT_RESERVE_TOKENS) * CHARS_PER_TOKEN,
            None => true,
        },
{
}

/// What was noted of an endpoint is what is found of it, and nothing else
/// changes.
pub proof fn noted_windows_are_found(
    m: Map<Seq<char>, Option<u64>>,
    url: Seq<char>,
    other: Seq<char>,
    n_ctx: Option<u64>,
)
    ensures
        window_view(None, Some(url), m.insert(url, told_window(n_ctx))) == Ok::<
            Option<u64>,
            Seq<char>,
        >(told_window(n_ctx)),
        other != url ==> cached(m.insert(url, told_window(n_ctx)), other) == cached(m, other),
{
}

} // verus!
