//! What makes a good entry of the project context, who may write one, and how
//! the context as a whole fares.

use crate::json::{
    decimal_json, int_json, jdecimal, jlen, json_error, json_problem, jtext, jtexts, texts_json,
    Fields, Json, JsonView,
};
use crate::principal::{
    caller_has, caller_view, has_capability, Capability, Principal, PrincipalKind, PrincipalView,
};
use crate::protocol::{
    context_rows, db_error, db_error_text, done, done_view, events, failed, failed_view, Action,
    ActionView, Call, CallView, ContextRow, ContextRowView, Event, EventView, Stamp,
};
use crate::rounding::{
    lemma_exact, lemma_grain, lemma_nearest_bounds, lemma_one, nearest, part, round, share, ONE,
};
use crate::text::{
    add_line, add_lines, ascii_lower, begins_with, cat2, cat3, cat4, cat5, chars_of, decimal,
    decimal_int, first_n, join, joined, keep_lines, led, length, lowercase, no_lines, opt, own, same,
    show_i64, show_u64, show_usize, starts_with, texts, to_ascii_lower,
};
use vstd::prelude::*;

verus! {

// ---------------------------------------------------------------------
// Keys
// ---------------------------------------------------------------------

/// Whether a character may stand in a key.
pub open spec fn is_key_char(c: char) -> bool {
    'A' <= c <= 'Z' || 'a' <= c <= 'z' || '0' <= c <= '9' || c == '.' || c == '_' || c == '/' || c
        == '-'
}

/// Whether a text can be a key: ASCII letters, digits and `. _ / -`, at least
/// one.
pub open spec fn is_key(s: Seq<char>) -> bool {
    s.len() > 0 && forall|i: int| 0 <= i < s.len() ==> is_key_char(#[trigger] s[i])
}

/// Whether `value` can be a key.
pub fn is_valid_memory_key(value: &str) -> (r: bool)
    ensures
        r == is_key(value@),
{
    let v: Vec<char> = chars_of(value);
    if v.len() == 0 {
        return false;
    }
    let mut i: usize = 0;
    while i < v.len()
        invariant
            v@ == value@,
            i <= v@.len(),
            forall|j: int| 0 <= j < i ==> is_key_char(#[trigger] v@[j]),
        decreases v@.len() - i,
    {
        let c: char = v[i];
        if !(('A' <= c && c <= 'Z') || ('a' <= c && c <= 'z') || ('0' <= c && c <= '9') || c == '.'
            || c == '_' || c == '/' || c == '-') {
            proof {
                assert(!is_key_char(value@[i as int]));
            }
            return false;
        }
        i = i + 1;
    }
    true
}

/// Whether a character can mislead the eye: a control character, or one that
/// has no width or turns the direction of the text.
pub open spec fn is_unsafe(c: char) -> bool {
    let cp = c as u32;
    ||| cp <= 0x1F
    ||| cp == 0x7F
    ||| 0x200B <= cp <= 0x200F
    ||| 0x2028 <= cp <= 0x202E
    ||| 0x2060 <= cp <= 0x2064
    ||| 0x2066 <= cp <= 0x206F
    ||| cp == 0xFEFF
}

/// Whether a text holds a character that can mislead the eye.
pub open spec fn is_spoofed(s: Seq<char>) -> bool {
    exists|i: int| 0 <= i < s.len() && is_unsafe(#[trigger] s[i])
}

/// Whether `value` holds a character that can mislead the eye.
pub fn has_unsafe_unicode_for_identifier(value: &str) -> (r: bool)
    ensures
        r == is_spoofed(value@),
{
    let v: Vec<char> = chars_of(value);
    let mut i: usize = 0;
    while i < v.len()
        invariant
            v@ == value@,
            i <= v@.len(),
            forall|j: int| 0 <= j < i ==> !is_unsafe(#[trigger] v@[j]),
        decreases v@.len() - i,
    {
        let cp: u32 = v[i] as u32;
        if cp <= 0x1F || cp == 0x7F || (0x200B <= cp && cp <= 0x200F) || (0x2028 <= cp && cp
            <= 0x202E) || (0x2060 <= cp && cp <= 0x2064) || (0x2066 <= cp && cp <= 0x206F) || cp
            == 0xFEFF {
            proof {
                assert(is_unsafe(value@[i as int]));
            }
            return true;
        }
        i = i + 1;
    }
    false
}

/// A text that can be a key never misleads the eye.
pub proof fn keys_are_never_spoofed(s: Seq<char>)
    requires
        is_key(s),
    ensures
        !is_spoofed(s),
{
    assert forall|i: int| 0 <= i < s.len() implies !is_unsafe(#[trigger] s[i]) by {
        assert(is_key_char(s[i]));
    }
}

/// Whether a key belongs to the settings: it begins with `config_`, in any
/// letter case.
pub open spec fn is_config(key: Seq<char>) -> bool {
    begins_with(ascii_lower(key), "config_"@)
}

/// Whether `key` belongs to the settings.
pub fn is_config_key(key: &str) -> (r: bool)
    ensures
        r == is_config(key@),
{
    let lower: String = to_ascii_lower(key);
    starts_with(lower.as_str(), "config_")
}

// ---------------------------------------------------------------------
// Who may write
// ---------------------------------------------------------------------

/// What a caller who may not write reads.
pub const WRITE_DENIED_REASON: &'static str = "Unauthorized: Valid token or operator session required, and viewer-tier operators cannot mutate project context (read-only project membership)";

/// What a caller without an identity reads.
pub const AUTHENTICATED_DENIED_REASON: &'static str =
    "Unauthorized: Valid token or operator session required";

/// Whether a caller may make one sort of write: every agent may, and
/// every other caller who has the permission.
pub open spec fn may_write(p: Option<PrincipalView>, cap: Capability) -> bool {
    match p {
        Some(x) => x.kind == PrincipalKind::AgentBearer || caller_has(p, cap),
        None => false,
    }
}

/// Whether the caller may make one sort of write.
pub fn compound_write_gate(principal: Option<&Principal>, cap: Capability) -> (r: bool)
    ensures
        r == may_write(caller_view(principal), cap),
{
    match principal {
        Some(p) => p.kind == PrincipalKind::AgentBearer || p.has_capability(cap),
        None => false,
    }
}

/// Whether the caller may create entries.
pub fn can_create_project_context(principal: Option<&Principal>) -> (r: bool)
    ensures
        r == may_write(caller_view(principal), Capability::MemoriesCreate),
{
    compound_write_gate(principal, Capability::MemoriesCreate)
}

/// Whether the caller may change entries.
pub fn can_update_project_context(principal: Option<&Principal>) -> (r: bool)
    ensures
        r == may_write(caller_view(principal), Capability::MemoriesUpdate),
{
    compound_write_gate(principal, Capability::MemoriesUpdate)
}

/// Whether the caller may delete entries.
pub fn can_delete_project_context(principal: Option<&Principal>) -> (r: bool)
    ensures
        r == may_write(caller_view(principal), Capability::MemoriesDelete),
{
    compound_write_gate(principal, Capability::MemoriesDelete)
}

// ---------------------------------------------------------------------
// Time
// ---------------------------------------------------------------------

/// Nanoseconds in a day.
pub const DAY: i128 = 86_400_000_000_000;

/// A time in nanoseconds.
pub open spec fn nanos(t: Stamp) -> int {
    t.secs * 1_000_000_000 + t.nanos
}

/// The whole days from `t` to `now`; negative where `t` is the later.
pub open spec fn days_since(now: Stamp, t: Stamp) -> int {
    let d = nanos(now) - nanos(t);
    if d >= 0 {
        d / (DAY as int)
    } else {
        -((-d) / (DAY as int))
    }
}

fn nanos_of(t: Stamp) -> (r: i128)
    ensures
        r == nanos(t),
        -9_300_000_000_000_000_000_000_000_000 <= r <= 9_300_000_000_000_000_000_000_000_000,
{
    t.secs as i128 * 1_000_000_000 + t.nanos as i128
}

/// The whole days from `t` to `now`.
pub fn days_between(now: Stamp, t: Stamp) -> (r: i64)
    ensures
        r == days_since(now, t),
{
    let d: i128 = nanos_of(now) - nanos_of(t);
    if d >= 0 {
        let days: i128 = d / DAY;
        proof {
            assert(days <= 300_000_000_000_000) by (nonlinear_arith)
                requires
                    days == d / 86_400_000_000_000,
                    0 <= d <= 18_600_000_000_000_000_000_000_000_000,
            ;
        }
        days as i64
    } else {
        let e: i128 = -d;
        let days: i128 = e / DAY;
        proof {
            assert(days <= 300_000_000_000_000) by (nonlinear_arith)
                requires
                    days == e / 86_400_000_000_000,
                    0 <= e <= 18_600_000_000_000_000_000_000_000_000,
            ;
        }
        -(days as i64)
    }
}

/// How many days ago an entry was written, where its time can be read.
pub open spec fn age(e: ContextRowView, now: Stamp) -> Option<int> {
    match e.updated {
        Some(t) => Some(days_since(now, t)),
        None => None,
    }
}

/// How many days ago an entry was written.
pub fn age_of(e: &ContextRow, now: Stamp) -> (r: Option<i64>)
    ensures
        match r {
            Some(d) => age(e@, now) == Some(d as int),
            None => age(e@, now) is None,
        },
{
    match e.updated {
        Some(t) => Some(days_between(now, t)),
        None => None,
    }
}

/// After how many days an entry is stale.
pub const STALE_DAYS: i64 = 30;

/// After how many days an entry is worth a warning.
pub const VERY_STALE_DAYS: i64 = 90;

/// From how many characters on an entry is large.
pub const LARGE_ENTRY_CHARS: usize = 10240;

/// Whether an entry is stale.
pub open spec fn is_stale(e: ContextRowView, now: Stamp) -> bool {
    age(e, now) is Some && age(e, now)->0 > STALE_DAYS
}

/// Whether an entry is large.
pub open spec fn is_large(e: ContextRowView) -> bool {
    e.value.len() > LARGE_ENTRY_CHARS
}

/// Whether the value of an entry is no JSON.
pub open spec fn is_broken(e: ContextRowView) -> bool {
    json_error(e.value) is Some
}

// ---------------------------------------------------------------------
// Health
// ---------------------------------------------------------------------

/// How the project context fares. The score is in tenths of a point.
#[derive(Debug, PartialEq)]
pub struct ContextHealthReport {
    pub status: String,
    pub health_score: u64,
    pub total: usize,
    pub stale_entries: usize,
    pub json_errors: usize,
    pub large_entries: usize,
    pub issues: Vec<String>,
    pub warnings: Vec<String>,
    pub recommendations: Vec<String>,
}

/// The meaning of a health report.
pub struct HealthView {
    pub status: Seq<char>,
    pub health_score: int,
    pub total: int,
    pub stale_entries: int,
    pub json_errors: int,
    pub large_entries: int,
    pub issues: Seq<Seq<char>>,
    pub warnings: Seq<Seq<char>>,
    pub recommendations: Seq<Seq<char>>,
}

impl View for ContextHealthReport {
    type V = HealthView;

    open spec fn view(&self) -> HealthView {
        HealthView {
            status: self.status@,
            health_score: self.health_score as int,
            total: self.total as int,
            stale_entries: self.stale_entries as int,
            json_errors: self.json_errors as int,
            large_entries: self.large_entries as int,
            issues: texts(self.issues@),
            warnings: texts(self.warnings@),
            recommendations: texts(self.recommendations@),
        }
    }
}

/// How many entries are stale.
pub open spec fn stale_count(s: Seq<ContextRowView>, now: Stamp) -> int
    decreases s.len(),
{
    if s.len() == 0 {
        0
    } else {
        stale_count(s.drop_last(), now) + (if is_stale(s.last(), now) {
            1int
        } else {
            0
        })
    }
}

/// How many entries are no JSON.
pub open spec fn broken_count(s: Seq<ContextRowView>) -> int
    decreases s.len(),
{
    if s.len() == 0 {
        0
    } else {
        broken_count(s.drop_last()) + (if is_broken(s.last()) {
            1int
        } else {
            0
        })
    }
}

/// How many entries are large.
pub open spec fn large_count(s: Seq<ContextRowView>) -> int
    decreases s.len(),
{
    if s.len() == 0 {
        0
    } else {
        large_count(s.drop_last()) + (if is_large(s.last()) {
            1int
        } else {
            0
        })
    }
}

/// The issues that entries raise, in their order.
pub open spec fn health_issues(s: Seq<ContextRowView>) -> Seq<Seq<char>>
    decreases s.len(),
{
    if s.len() == 0 {
        Seq::empty()
    } else if is_broken(s.last()) {
        health_issues(s.drop_last()).push("JSON parse error in '"@ + s.last().context_key + "'"@)
    } else {
        health_issues(s.drop_last())
    }
}

/// The warnings that one entry raises: its age, then its size.
pub open spec fn entry_warnings(e: ContextRowView, now: Stamp) -> Seq<Seq<char>> {
    (match age(e, now) {
        Some(days) => if days > VERY_STALE_DAYS {
            seq!["'"@ + e.context_key + "' is "@ + decimal_int(days) + " days old"@]
        } else {
            Seq::empty()
        },
        None => seq!["Invalid timestamp for '"@ + e.context_key + "'"@],
    }) + (if is_large(e) {
        seq!["'"@ + e.context_key + "' is large ("@ + decimal(e.value.len() / 1024) + "KB)"@]
    } else {
        Seq::empty()
    })
}

/// The warnings that entries raise, in their order.
pub open spec fn health_warnings(s: Seq<ContextRowView>, now: Stamp) -> Seq<Seq<char>>
    decreases s.len(),
{
    if s.len() == 0 {
        Seq::empty()
    } else {
        health_warnings(s.drop_last(), now) + entry_warnings(s.last(), now)
    }
}

/// What a sort of trouble costs: its weight in points by the share of entries
/// that have it.
pub open spec fn cost(weight: int, count: int, total: int) -> int {
    nearest(weight * share(count, total))
}

/// The points that are left of `points` after a cost.
pub open spec fn without(points: int, cost: int) -> int {
    nearest(
        if points > cost {
            points - cost
        } else {
            0
        },
    )
}

/// The score of a context. Staleness costs up to forty points of a hundred,
/// broken entries up to fifty, large ones up to ten. Each step is rounded as
/// double precision rounds it.
pub open spec fn health_points(stale: int, broken: int, large: int, total: int) -> int {
    let a = without(100 * ONE, cost(40, stale, total));
    let b = without(a, cost(50, broken, total));
    let c = without(b, cost(10, large, total));
    if c > 100 * ONE {
        100 * ONE
    } else {
        c
    }
}

/// The score in whole tenths of a point.
pub open spec fn health_tenths(stale: int, broken: int, large: int, total: int) -> int {
    (nearest(10 * health_points(stale, broken, large, total)) + ONE / 2) / (ONE as int)
}

/// The word for a score.
pub open spec fn health_word(stale: int, broken: int, large: int, total: int) -> Seq<char> {
    let points = health_points(stale, broken, large, total);
    if points >= 90 * ONE {
        "excellent"@
    } else if points >= 70 * ONE {
        "good"@
    } else if points >= 50 * ONE {
        "needs_attention"@
    } else {
        "critical"@
    }
}

/// What is advised.
pub open spec fn advice(stale: int, broken: int, large: int, total: int) -> Seq<Seq<char>> {
    let a = if broken > 0 {
        seq![
            "Fix "@ + decimal(broken as nat)
                + " JSON parsing errors using validate_context_consistency"@,
        ]
    } else {
        Seq::empty()
    };
    let b = if 10 * stale > 3 * total {
        a.push(
            "Review and update "@ + decimal(stale as nat) + " stale entries (30+ days old)"@,
        )
    } else {
        a
    };
    let c = if large > 0 {
        b.push(
            "Consider breaking down "@ + decimal(large as nat)
                + " large entries into smaller components"@,
        )
    } else {
        b
    };
    let d = if total > 100 {
        c.push("Consider archiving old context entries to improve performance"@)
    } else {
        c
    };
    if d.len() == 0 {
        seq!["Context health is excellent - no immediate action required"@]
    } else {
        d
    }
}

/// How a project context fares.
pub open spec fn health_of(s: Seq<ContextRowView>, now: Stamp) -> HealthView {
    if s.len() == 0 {
        HealthView {
            status: "no_data"@,
            health_score: 1000,
            total: 0,
            stale_entries: 0,
            json_errors: 0,
            large_entries: 0,
            issues: Seq::empty(),
            warnings: Seq::empty(),
            recommendations: seq![
                "No context entries yet - add project context to enable health analysis"@,
            ],
        }
    } else {
        let total = s.len() as int;
        let stale = stale_count(s, now);
        let broken = broken_count(s);
        let large = large_count(s);
        HealthView {
            status: health_word(stale, broken, large, total),
            health_score: health_tenths(stale, broken, large, total),
            total,
            stale_entries: stale,
            json_errors: broken,
            large_entries: large,
            issues: first_n(health_issues(s), 5),
            warnings: first_n(health_warnings(s, now), 5),
            recommendations: advice(stale, broken, large, total),
        }
    }
}

/// What is advised.
pub fn generate_context_recommendations(
    stale_count: usize,
    json_errors: usize,
    large_entries: usize,
    total: usize,
) -> (r: Vec<String>)
    ensures
        texts(r@) == advice(
            stale_count as int,
            json_errors as int,
            large_entries as int,
            total as int,
        ),
{
    let mut out: Vec<String> = no_lines();
    if json_errors > 0 {
        let n: String = show_usize(json_errors);
        add_line(
            &mut out,
            cat3(
                "Fix ",
                n.as_str(),
                " JSON parsing errors using validate_context_consistency",
            ),
        );
        proof {
            assert(texts(out@) =~= seq![
                "Fix "@ + decimal(json_errors as nat)
                    + " JSON parsing errors using validate_context_consistency"@,
            ]);
        }
    }
    if stale_count as u128 * 10 > total as u128 * 3 {
        let n: String = show_usize(stale_count);
        add_line(
            &mut out,
            cat3("Review and update ", n.as_str(), " stale entries (30+ days old)"),
        );
    }
    if large_entries > 0 {
        let n: String = show_usize(large_entries);
        add_line(
            &mut out,
            cat3(
                "Consider breaking down ",
                n.as_str(),
                " large entries into smaller components",
            ),
        );
    }
    if total > 100 {
        add_line(
            &mut out,
            own("Consider archiving old context entries to improve performance"),
        );
    }
    proof {
        assert(texts(out@).len() == out@.len());
    }
    if out.len() == 0 {
        add_line(&mut out, own("Context health is excellent - no immediate action required"));
        proof {
            assert(texts(out@) =~= seq![
                "Context health is excellent - no immediate action required"@,
            ]);
        }
    }
    out
}

proof fn lemma_tenths(points: int)
    requires
        0 <= points <= 100 * ONE,
    ensures
        0 <= nearest(10 * points) < 1001 * ONE - ONE / 2,
        0 <= (nearest(10 * points) + ONE / 2) / (ONE as int) <= 1000,
{
    lemma_nearest_bounds(10 * points);
}

proof fn lemma_points(stale: int, broken: int, large: int, total: int)
    ensures
        0 <= health_points(stale, broken, large, total) <= 100 * ONE,
        0 <= health_tenths(stale, broken, large, total) <= 1000,
{
    let a = without(100 * ONE, cost(40, stale, total));
    let b = without(a, cost(50, broken, total));
    let d = cost(10, large, total);
    lemma_nearest_bounds(
        if b > d {
            b - d
        } else {
            0
        },
    );
    lemma_tenths(health_points(stale, broken, large, total));
}

/// What a sort of trouble costs.
fn cost_of(weight: u128, count: usize, total: usize) -> (r: u128)
    requires
        weight <= 50,
        count <= total,
        total > 0,
    ensures
        r == cost(weight as int, count as int, total as int),
{
    let s: u128 = part(count, total);
    assert(weight * s <= 100 * ONE) by (nonlinear_arith)
        requires
            weight <= 50,
            s <= 2 * ONE,
    ;
    round(weight * s)
}

/// The points that are left after a cost.
fn charge(points: u128, cost: u128) -> (r: u128)
    requires
        points <= 103 * ONE,
    ensures
        r == without(points as int, cost as int),
        r <= points + ONE,
{
    let left: u128 = if points > cost {
        points - cost
    } else {
        0
    };
    proof {
        lemma_nearest_bounds(left as int);
    }
    round(left)
}

/// The score of a context.
fn points_of(stale: usize, broken: usize, large: usize, total: usize) -> (r: u128)
    requires
        stale <= total,
        broken <= total,
        large <= total,
        total > 0,
    ensures
        r == health_points(stale as int, broken as int, large as int, total as int),
        r <= 100 * ONE,
{
    let a: u128 = charge(100 * ONE, cost_of(40, stale, total));
    let b: u128 = charge(a, cost_of(50, broken, total));
    let c: u128 = charge(b, cost_of(10, large, total));
    if c > 100 * ONE {
        100 * ONE
    } else {
        c
    }
}

fn warn(e: &ContextRow, now: Stamp, size: usize, out: &mut Vec<String>)
    requires
        size == e@.value.len(),
    ensures
        texts(final(out)@) == texts(old(out)@) + entry_warnings(e@, now),
{
    let ghost before = texts(out@);
    let key: &str = e.context_key.as_str();
    match age_of(e, now) {
        Some(days) => {
            if days > VERY_STALE_DAYS {
                let n: String = show_i64(days);
                add_line(out, cat5("'", key, "' is ", n.as_str(), " days old"));
            }
        },
        None => {
            add_line(out, cat3("Invalid timestamp for '", key, "'"));
        },
    }
    if size > LARGE_ENTRY_CHARS {
        let n: String = show_usize(size / 1024);
        add_line(out, cat5("'", key, "' is large (", n.as_str(), "KB)"));
    }
    proof {
        assert(texts(out@) =~= before + entry_warnings(e@, now));
    }
}

/// How a project context fares at `now`.
pub fn analyze_context_health(entries: &Vec<ContextRow>, now: Stamp) -> (r: ContextHealthReport)
    ensures
        r@ == health_of(context_rows(entries@), now),
{
    if entries.len() == 0 {
        let mut advice: Vec<String> = no_lines();
        add_line(
            &mut advice,
            own("No context entries yet - add project context to enable health analysis"),
        );
        proof {
            assert(texts(advice@) =~= seq![
                "No context entries yet - add project context to enable health analysis"@,
            ]);
        }
        return ContextHealthReport {
            status: own("no_data"),
            health_score: 1000,
            total: 0,
            stale_entries: 0,
            json_errors: 0,
            large_entries: 0,
            issues: no_lines(),
            warnings: no_lines(),
            recommendations: advice,
        };
    }
    let total: usize = entries.len();
    let mut issues: Vec<String> = no_lines();
    let mut warnings: Vec<String> = no_lines();
    let mut stale: usize = 0;
    let mut broken: usize = 0;
    let mut large: usize = 0;
    let ghost all = context_rows(entries@);
    let mut i: usize = 0;
    while i < entries.len()
        invariant
            all == context_rows(entries@),
            i <= entries@.len(),
            stale <= i,
            broken <= i,
            large <= i,
            stale == stale_count(all.subrange(0, i as int), now),
            broken == broken_count(all.subrange(0, i as int)),
            large == large_count(all.subrange(0, i as int)),
            texts(issues@) == health_issues(all.subrange(0, i as int)),
            texts(warnings@) == health_warnings(all.subrange(0, i as int), now),
        decreases entries@.len() - i,
    {
        let e: &ContextRow = &entries[i];
        proof {
            let here = all.subrange(0, i + 1);
            assert(here.drop_last() =~= all.subrange(0, i as int));
            assert(here.last() == e@);
        }
        if json_problem(e.value.as_str()).is_some() {
            broken = broken + 1;
            add_line(&mut issues, cat3("JSON parse error in '", e.context_key.as_str(), "'"));
        }
        match age_of(e, now) {
            Some(days) => {
                if days > STALE_DAYS {
                    stale = stale + 1;
                }
            },
            None => {},
        }
        let size: usize = length(e.value.as_str());
        if size > LARGE_ENTRY_CHARS {
            large = large + 1;
        }
        warn(e, now, size, &mut warnings);
        i = i + 1;
    }
    proof {
        assert(all.subrange(0, all.len() as int) =~= all);
    }
    let points: u128 = points_of(stale, broken, large, total);
    proof {
        lemma_tenths(points as int);
    }
    let status: &str = if points >= 90 * ONE {
        "excellent"
    } else if points >= 70 * ONE {
        "good"
    } else if points >= 50 * ONE {
        "needs_attention"
    } else {
        "critical"
    };
    let tenths: u128 = (round(10 * points) + ONE / 2) / ONE;
    keep_lines(&mut issues, 5);
    keep_lines(&mut warnings, 5);
    ContextHealthReport {
        status: own(status),
        health_score: tenths as u64,
        total,
        stale_entries: stale,
        json_errors: broken,
        large_entries: large,
        issues,
        warnings,
        recommendations: generate_context_recommendations(stale, broken, large, total),
    }
}

proof fn lemma_counts(s: Seq<ContextRowView>, now: Stamp)
    ensures
        0 <= stale_count(s, now) <= s.len(),
        0 <= broken_count(s) <= s.len(),
        0 <= large_count(s) <= s.len(),
    decreases s.len(),
{
    if s.len() > 0 {
        lemma_counts(s.drop_last(), now);
    }
}

/// A score lies between nothing and a hundred points; a report names at most
/// five issues and five warnings, and always advises something.
pub proof fn health_reports_are_bounded(s: Seq<ContextRowView>, now: Stamp)
    ensures
        0 <= health_of(s, now).health_score <= 1000,
        health_of(s, now).issues.len() <= 5,
        health_of(s, now).warnings.len() <= 5,
        health_of(s, now).recommendations.len() > 0,
{
    lemma_counts(s, now);
    if s.len() > 0 {
        lemma_points(stale_count(s, now), broken_count(s), large_count(s), s.len() as int);
    }
}

/// A context in which no entry is stale, broken or large is in excellent
/// health, with a full score.
pub proof fn clean_contexts_are_excellent(s: Seq<ContextRowView>, now: Stamp)
    requires
        s.len() > 0,
        stale_count(s, now) == 0,
        broken_count(s) == 0,
        large_count(s) == 0,
    ensures
        health_of(s, now).status == "excellent"@,
        health_of(s, now).health_score == 1000,
{
    let total = s.len() as int;
    lemma_one();
    lemma_exact(100, 118);
    lemma_exact(1000, 118);
    assert(share(0, total) == 0) by {
        lemma_grain(0);
        assert(0 * ONE / total == 0) by (nonlinear_arith)
            requires
                total > 0,
        ;
        assert(0 * 1 * total == 0 && 1 * total == total) by (nonlinear_arith);
    }
    assert(nearest(0) == 0);
    assert(cost(40, 0, total) == 0 && cost(50, 0, total) == 0 && cost(10, 0, total) == 0);
    assert(health_points(0, 0, 0, total) == 100 * ONE);
}

/// The sign of a health status.
pub open spec fn health_sign(status: Seq<char>) -> Seq<char> {
    if status == "excellent"@ {
        "\u{1f7e2}"@
    } else if status == "good"@ {
        "\u{1f7e1}"@
    } else if status == "needs_attention"@ {
        "\u{1f7e0}"@
    } else {
        "\u{1f534}"@
    }
}

/// The sign of a health status: green, yellow, orange, or red for any other.
pub fn health_status_icon(status: &str) -> (r: &'static str)
    ensures
        r@ == health_sign(status@),
{
    if same(status, "excellent") {
        "\u{1f7e2}"
    } else if same(status, "good") {
        "\u{1f7e1}"
    } else if same(status, "needs_attention") {
        "\u{1f7e0}"
    } else {
        "\u{1f534}"
    }
}

/// A number of tenths with one decimal place.
pub open spec fn tenths_text(t: int) -> Seq<char> {
    decimal((t / 10) as nat) + "."@ + decimal((t % 10) as nat)
}

/// A number of tenths, with a decimal place only where it is needed.
pub open spec fn short_tenths(t: int) -> Seq<char> {
    if t % 10 == 0 {
        decimal((t / 10) as nat)
    } else {
        tenths_text(t)
    }
}

fn show_tenths(t: u64) -> (r: String)
    ensures
        r@ == tenths_text(t as int),
{
    let a: String = show_u64(t / 10);
    let b: String = show_u64(t % 10);
    cat3(a.as_str(), ".", b.as_str())
}

/// A number of tenths, with a decimal place only where it is needed.
pub fn show_score(t: u64) -> (r: String)
    ensures
        r@ == short_tenths(t as int),
{
    if t % 10 == 0 {
        show_u64(t / 10)
    } else {
        show_tenths(t)
    }
}

/// A health report as a JSON object.
pub open spec fn health_json(h: HealthView) -> JsonView {
    JsonView::Object(
        map![
        "status"@ => JsonView::Text(h.status),
        "health_score"@ => decimal_json(tenths_text(h.health_score)),
        "total"@ => int_json(h.total),
        "stale_entries"@ => int_json(h.stale_entries),
        "json_errors"@ => int_json(h.json_errors),
        "large_entries"@ => int_json(h.large_entries),
        "issues"@ => texts_json(h.issues),
        "warnings"@ => texts_json(h.warnings),
        "recommendations"@ => texts_json(h.recommendations)
    ],
    )
}

impl ContextHealthReport {
    /// This report as a JSON object.
    pub fn to_json(&self) -> (r: Json)
        ensures
            r@ == health_json(self@),
    {
        let score: String = show_tenths(self.health_score);
        let mut f: Fields = Fields::new();
        f.put("status", jtext(self.status.as_str()));
        f.put("health_score", jdecimal(score.as_str()));
        f.put("total", jlen(self.total));
        f.put("stale_entries", jlen(self.stale_entries));
        f.put("json_errors", jlen(self.json_errors));
        f.put("large_entries", jlen(self.large_entries));
        f.put("issues", jtexts(&self.issues));
        f.put("warnings", jtexts(&self.warnings));
        f.put("recommendations", jtexts(&self.recommendations));
        f.done()
    }
}

// ---------------------------------------------------------------------
// Consistency
// ---------------------------------------------------------------------

/// What is wrong with the project context.
#[derive(Debug, PartialEq)]
pub struct ConsistencyReport {
    pub total_entries: usize,
    pub issues: Vec<String>,
    pub warnings: Vec<String>,
}

/// The meaning of a consistency report.
pub struct ConsistencyView {
    pub total_entries: int,
    pub issues: Seq<Seq<char>>,
    pub warnings: Seq<Seq<char>>,
}

impl View for ConsistencyReport {
    type V = ConsistencyView;

    open spec fn view(&self) -> ConsistencyView {
        ConsistencyView {
            total_entries: self.total_entries as int,
            issues: texts(self.issues@),
            warnings: texts(self.warnings@),
        }
    }
}

/// From how many characters on a value is unusually large.
pub const LARGE_VALUE_CHARS: usize = 10000;

/// The values that are no JSON.
pub open spec fn json_issues(s: Seq<ContextRowView>) -> Seq<Seq<char>>
    decreases s.len(),
{
    if s.len() == 0 {
        Seq::empty()
    } else {
        match json_error(s.last().value) {
            Some(e) => json_issues(s.drop_last()).push(
                "Invalid JSON in '"@ + s.last().context_key + "': "@ + e,
            ),
            None => json_issues(s.drop_last()),
        }
    }
}

/// The first key of the list that differs from `key` in letter case at most.
pub open spec fn first_alike(s: Seq<ContextRowView>, key: Seq<char>) -> Option<Seq<char>>
    decreases s.len(),
{
    if s.len() == 0 {
        None
    } else {
        match first_alike(s.drop_last(), key) {
            Some(k) => Some(k),
            None => if lowercase(s.last().context_key) == lowercase(key) {
                Some(s.last().context_key)
            } else {
                None
            },
        }
    }
}

/// The keys that an earlier key differs from in letter case at most.
pub open spec fn duplicate_issues(s: Seq<ContextRowView>) -> Seq<Seq<char>>
    decreases s.len(),
{
    if s.len() == 0 {
        Seq::empty()
    } else {
        match first_alike(s.drop_last(), s.last().context_key) {
            Some(first) => duplicate_issues(s.drop_last()).push(
                "Potential duplicate keys: '"@ + first + "' and '"@ + s.last().context_key + "'"@,
            ),
            None => duplicate_issues(s.drop_last()),
        }
    }
}

/// Whether an entry has no description.
pub open spec fn lacks_description(e: ContextRowView) -> bool {
    e.description is None || e.description->0.len() == 0
}

/// Whether an entry was last written more than thirty days before `now`.
pub open spec fn is_old(e: ContextRowView, now: Stamp) -> bool {
    e.updated is Some && nanos(e.updated->0) < nanos(now) - 30 * DAY
}

/// The entries without a description.
pub open spec fn missing_lines(s: Seq<ContextRowView>) -> Seq<Seq<char>>
    decreases s.len(),
{
    if s.len() == 0 {
        Seq::empty()
    } else if lacks_description(s.last()) {
        missing_lines(s.drop_last()).push("Missing description: '"@ + s.last().context_key + "'"@)
    } else {
        missing_lines(s.drop_last())
    }
}

/// The old entries.
pub open spec fn old_lines(s: Seq<ContextRowView>, now: Stamp) -> Seq<Seq<char>>
    decreases s.len(),
{
    if s.len() == 0 {
        Seq::empty()
    } else if is_old(s.last(), now) {
        old_lines(s.drop_last(), now).push(
            "Old entry (>30 days): '"@ + s.last().context_key + "'"@,
        )
    } else {
        old_lines(s.drop_last(), now)
    }
}

/// The unusually large entries.
pub open spec fn large_lines(s: Seq<ContextRowView>) -> Seq<Seq<char>>
    decreases s.len(),
{
    if s.len() == 0 {
        Seq::empty()
    } else if s.last().value.len() > LARGE_VALUE_CHARS {
        large_lines(s.drop_last()).push(
            "Large entry: "@ + s.last().context_key + " ("@ + decimal(s.last().value.len())
                + " chars)"@,
        )
    } else {
        large_lines(s.drop_last())
    }
}

/// The first `n` lines, and how many more there are.
pub open spec fn capped(lines: Seq<Seq<char>>, n: int, more: Seq<char>) -> Seq<Seq<char>> {
    if lines.len() <= n {
        lines
    } else {
        lines.subrange(0, n).push("... and "@ + decimal((lines.len() - n) as nat) + more)
    }
}

/// What is wrong with a project context: values that are no JSON and keys that
/// are alike are issues; missing descriptions, old and large entries are
/// warnings.
pub open spec fn consistency_of(s: Seq<ContextRowView>, now: Stamp) -> ConsistencyView {
    ConsistencyView {
        total_entries: s.len() as int,
        issues: json_issues(s) + duplicate_issues(s),
        warnings: capped(missing_lines(s), 10, " more missing descriptions"@) + capped(
            old_lines(s, now),
            5,
            " more old entries"@,
        ) + capped(large_lines(s), 5, " more large entries"@),
    }
}

fn cap_lines(lines: &mut Vec<String>, n: usize, more: &str)
    ensures
        texts(final(lines)@) == capped(texts(old(lines)@), n as int, more@),
{
    let ghost before = texts(lines@);
    let total: usize = lines.len();
    if total > n {
        keep_lines(lines, n);
        let rest: String = show_usize(total - n);
        add_line(lines, cat3("... and ", rest.as_str(), more));
    }
}

fn find_alike(entries: &Vec<ContextRow>, until: usize, key: &str) -> (r: Option<String>)
    requires
        until <= entries@.len(),
    ensures
        opt(r) == first_alike(context_rows(entries@).subrange(0, until as int), key@),
{
    let wanted: String = key.to_lowercase();
    let ghost all = context_rows(entries@);
    let mut i: usize = 0;
    while i < until
        invariant
            all == context_rows(entries@),
            i <= until <= entries@.len(),
            wanted@ == lowercase(key@),
            first_alike(all.subrange(0, i as int), key@) is None,
        decreases until - i,
    {
        let k: &str = entries[i].context_key.as_str();
        let lower: String = k.to_lowercase();
        proof {
            let here = all.subrange(0, i + 1);
            assert(here.drop_last() =~= all.subrange(0, i as int));
            assert(here.last() == entries@[i as int]@);
        }
        if same(lower.as_str(), wanted.as_str()) {
            proof {
                lemma_alike_stays(all, key@, i + 1, until as int);
            }
            return Some(own(k));
        }
        i = i + 1;
    }
    None
}

proof fn lemma_alike_stays(s: Seq<ContextRowView>, key: Seq<char>, n: int, m: int)
    requires
        0 <= n <= m <= s.len(),
        first_alike(s.subrange(0, n), key) is Some,
    ensures
        first_alike(s.subrange(0, m), key) == first_alike(s.subrange(0, n), key),
    decreases m - n,
{
    if n < m {
        lemma_alike_stays(s, key, n, m - 1);
        assert(s.subrange(0, m).drop_last() =~= s.subrange(0, m - 1));
    }
}

/// What is wrong with a project context at `now`.
pub fn check_context_consistency(entries: &Vec<ContextRow>, now: Stamp) -> (r: ConsistencyReport)
    ensures
        r@ == consistency_of(context_rows(entries@), now),
{
    let mut broken: Vec<String> = no_lines();
    let mut alike: Vec<String> = no_lines();
    let mut missing: Vec<String> = no_lines();
    let mut old_entries: Vec<String> = no_lines();
    let mut large: Vec<String> = no_lines();
    let ghost all = context_rows(entries@);
    let cutoff: i128 = nanos_of(now) - 30 * DAY;
    let mut i: usize = 0;
    while i < entries.len()
        invariant
            all == context_rows(entries@),
            i <= entries@.len(),
            cutoff == nanos(now) - 30 * DAY,
            texts(broken@) == json_issues(all.subrange(0, i as int)),
            texts(alike@) == duplicate_issues(all.subrange(0, i as int)),
            texts(missing@) == missing_lines(all.subrange(0, i as int)),
            texts(old_entries@) == old_lines(all.subrange(0, i as int), now),
            texts(large@) == large_lines(all.subrange(0, i as int)),
        decreases entries@.len() - i,
    {
        let e: &ContextRow = &entries[i];
        let key: &str = e.context_key.as_str();
        proof {
            let here = all.subrange(0, i + 1);
            assert(here.drop_last() =~= all.subrange(0, i as int));
            assert(here.last() == e@);
        }
        match json_problem(e.value.as_str()) {
            Some(problem) => {
                add_line(
                    &mut broken,
                    cat4("Invalid JSON in '", key, "': ", problem.as_str()),
                );
            },
            None => {},
        }
        match find_alike(entries, i, key) {
            Some(first) => {
                add_line(
                    &mut alike,
                    cat5("Potential duplicate keys: '", first.as_str(), "' and '", key, "'"),
                );
            },
            None => {},
        }
        let described: bool = match &e.description {
            Some(d) => !d.as_str().is_empty(),
            None => false,
        };
        if !described {
            add_line(&mut missing, cat3("Missing description: '", key, "'"));
        }
        match e.updated {
            Some(t) => {
                if nanos_of(t) < cutoff {
                    add_line(&mut old_entries, cat3("Old entry (>30 days): '", key, "'"));
                }
            },
            None => {},
        }
        let size: usize = length(e.value.as_str());
        if size > LARGE_VALUE_CHARS {
            let n: String = show_usize(size);
            add_line(&mut large, cat5("Large entry: ", key, " (", n.as_str(), " chars)"));
        }
        i = i + 1;
    }
    proof {
        assert(all.subrange(0, all.len() as int) =~= all);
    }
    let mut issues: Vec<String> = broken;
    join_lines(&mut issues, &alike);
    cap_lines(&mut missing, 10, " more missing descriptions");
    cap_lines(&mut old_entries, 5, " more old entries");
    cap_lines(&mut large, 5, " more large entries");
    let mut warnings: Vec<String> = missing;
    join_lines(&mut warnings, &old_entries);
    join_lines(&mut warnings, &large);
    ConsistencyReport { total_entries: entries.len(), issues, warnings }
}

fn join_lines(lines: &mut Vec<String>, more: &Vec<String>)
    ensures
        texts(final(lines)@) == texts(old(lines)@) + texts(more@),
{
    let ghost before = texts(lines@);
    let mut i: usize = 0;
    proof {
        assert(texts(lines@) =~= before + texts(more@).subrange(0, 0));
    }
    while i < more.len()
        invariant
            i <= more@.len(),
            texts(lines@) == before + texts(more@).subrange(0, i as int),
        decreases more@.len() - i,
    {
        add_line(lines, own(more[i].as_str()));
        i = i + 1;
        proof {
            assert(texts(lines@) =~= before + texts(more@).subrange(0, i as int));
        }
    }
    proof {
        assert(texts(more@).subrange(0, more@.len() as int) =~= texts(more@));
    }
}

/// The lines that show a consistency report.
pub open spec fn consistency_lines(r: ConsistencyView) -> Seq<Seq<char>> {
    let a = seq![
        "Context Consistency Validation Results"@,
        "Total entries: "@ + decimal_int(r.total_entries),
    ];
    let bad = r.issues.len() > 0;
    let odd = r.warnings.len() > 0;
    if !bad && !odd {
        a.push("\n\u{2705} No issues found! Context appears consistent."@)
    } else {
        let b = if bad {
            a.push("\n\u{1f6a8} Critical Issues ("@ + decimal(r.issues.len()) + "):"@) + led(
                r.issues,
                "  "@,
            )
        } else {
            a
        };
        let c = if odd {
            b.push("\n\u{26a0}\u{fe0f}  Warnings ("@ + decimal(r.warnings.len()) + "):"@) + led(
                r.warnings,
                "  "@,
            )
        } else {
            b
        };
        let d = c.push("\nRecommendations:"@);
        let e = if bad {
            d.push("- Fix critical issues immediately"@).push(
                "- Use bulk_update_project_context for corrections"@,
            )
        } else {
            d
        };
        if odd {
            e.push("- Review warnings for potential cleanup"@).push(
                "- Consider using delete_project_context for unused entries"@,
            )
        } else {
            e
        }
    }
}

/// A consistency report in words.
pub fn render_consistency_message(report: &ConsistencyReport) -> (r: String)
    ensures
        r@ == joined(consistency_lines(report@), "\n"@),
{
    let mut parts: Vec<String> = no_lines();
    let total: String = show_usize(report.total_entries);
    add_line(&mut parts, own("Context Consistency Validation Results"));
    add_line(&mut parts, cat2("Total entries: ", total.as_str()));
    proof {
        assert(texts(parts@) =~= seq![
            "Context Consistency Validation Results"@,
            "Total entries: "@ + decimal_int(report@.total_entries),
        ]);
        assert(texts(report.issues@).len() == report.issues@.len());
        assert(texts(report.warnings@).len() == report.warnings@.len());
    }
    let bad: bool = report.issues.len() > 0;
    let odd: bool = report.warnings.len() > 0;
    if !bad && !odd {
        add_line(&mut parts, own("\n\u{2705} No issues found! Context appears consistent."));
    } else {
        if bad {
            let n: String = show_usize(report.issues.len());
            add_line(&mut parts, cat3("\n\u{1f6a8} Critical Issues (", n.as_str(), "):"));
            add_lines(&mut parts, "  ", &report.issues);
        }
        if odd {
            let n: String = show_usize(report.warnings.len());
            add_line(&mut parts, cat3("\n\u{26a0}\u{fe0f}  Warnings (", n.as_str(), "):"));
            add_lines(&mut parts, "  ", &report.warnings);
        }
        add_line(&mut parts, own("\nRecommendations:"));
        if bad {
            add_line(&mut parts, own("- Fix critical issues immediately"));
            add_line(&mut parts, own("- Use bulk_update_project_context for corrections"));
        }
        if odd {
            add_line(&mut parts, own("- Review warnings for potential cleanup"));
            add_line(
                &mut parts,
                own("- Consider using delete_project_context for unused entries"),
            );
        }
    }
    join(&parts, "\n")
}

/// The data of a consistency report.
pub open spec fn consistency_json(r: ConsistencyView) -> JsonView {
    JsonView::Object(
        map![
        "total_entries"@ => int_json(r.total_entries),
        "issues"@ => texts_json(r.issues),
        "warnings"@ => texts_json(r.warnings)
    ],
    )
}

/// The dialogue of `validate_context_consistency`.
pub open spec fn validate_next(c: CallView, h: Seq<EventView>) -> ActionView {
    if h.len() == 0 {
        ActionView::ListContexts
    } else {
        match h[0] {
            EventView::Contexts(rows) => if rows.len() == 0 {
                done_view(
                    consistency_json(
                        ConsistencyView {
                            total_entries: 0,
                            issues: Seq::empty(),
                            warnings: Seq::empty(),
                        },
                    ),
                    "No project context entries found."@,
                )
            } else {
                match c.instant {
                    None => failed_view("Internal clock error"@),
                    Some(now) => done_view(
                        consistency_json(consistency_of(rows, now)),
                        joined(consistency_lines(consistency_of(rows, now)), "\n"@),
                    ),
                }
            },
            _ => failed_view(db_error_text()),
        }
    }
}

/// `validate_context_consistency`: what is wrong with the project context.
pub struct ValidateContextConsistencyTool;

impl ValidateContextConsistencyTool {
    fn data(r: &ConsistencyReport) -> (j: Json)
        ensures
            j@ == consistency_json(r@),
    {
        let mut f: Fields = Fields::new();
        f.put("total_entries", jlen(r.total_entries));
        f.put("issues", jtexts(&r.issues));
        f.put("warnings", jtexts(&r.warnings));
        f.done()
    }

    /// What to do after `history`.
    pub fn next(call: &Call, history: &Vec<Event>) -> (r: Action)
        ensures
            r@ == validate_next(call@, events(history@)),
    {
        if history.len() == 0 {
            return Action::ListContexts;
        }
        match &history[0] {
            Event::Contexts(rows) => {
                if rows.len() == 0 {
                    let none: ConsistencyReport = ConsistencyReport {
                        total_entries: 0,
                        issues: no_lines(),
                        warnings: no_lines(),
                    };
                    return done(
                        ValidateContextConsistencyTool::data(&none),
                        own("No project context entries found."),
                    );
                }
                match call.instant {
                    None => failed("Internal clock error"),
                    Some(now) => {
                        let report: ConsistencyReport = check_context_consistency(rows, now);
                        let message: String = render_consistency_message(&report);
                        done(ValidateContextConsistencyTool::data(&report), message)
                    },
                }
            },
            _ => db_error(),
        }
    }
}

} // verus!
