//! What a report on the project context counts and names.

use crate::context_health::{
    broken_count, consistency_of, cost, days_since, duplicate_issues, entry_warnings, first_alike,
    health_issues, health_json, health_of, health_points, health_warnings, is_key, is_unsafe,
    json_issues, large_count, large_lines, missing_lines, old_lines, stale_count, validate_next,
    without, HealthView,
};
use crate::json::{field, int_json, json_read, list_field, text_field, JsonView};
use crate::protocol::{CallView, ContextRowView, EventView, Stamp};
use crate::rounding::{grain, lemma_exact, lemma_grain, lemma_one, nearest, share, ONE};
use crate::text::{decimal, lowercase};
use vstd::prelude::*;

verus! {

/// A report counts every entry once: as stale where it was last written more
/// than thirty whole days ago, as an error where its value is no JSON, and as
/// large where its value has more than ten thousand two hundred and forty
/// characters.
pub proof fn reports_count_the_entries(s: Seq<ContextRowView>, now: Stamp)
    ensures
        health_of(s, now).total == s.len(),
        health_of(s, now).stale_entries == s.filter(
            |e: ContextRowView| e.updated is Some && days_since(now, e.updated->0) >= 31,
        ).len(),
        health_of(s, now).json_errors == s.filter(
            |e: ContextRowView| json_read(e.value) is Err,
        ).len(),
        health_of(s, now).large_entries == s.filter(
            |e: ContextRowView| e.value.len() > 10240,
        ).len(),
{
    lemma_stale(s, now);
    lemma_broken(s);
    lemma_large(s);
}

proof fn lemma_stale(s: Seq<ContextRowView>, now: Stamp)
    ensures
        stale_count(s, now) == s.filter(
            |e: ContextRowView| e.updated is Some && days_since(now, e.updated->0) >= 31,
        ).len(),
    decreases s.len(),
{
    reveal(Seq::filter);
    if s.len() > 0 {
        lemma_stale(s.drop_last(), now);
    }
}

proof fn lemma_broken(s: Seq<ContextRowView>)
    ensures
        broken_count(s) == s.filter(|e: ContextRowView| json_read(e.value) is Err).len(),
    decreases s.len(),
{
    reveal(Seq::filter);
    if s.len() > 0 {
        lemma_broken(s.drop_last());
    }
}

proof fn lemma_large(s: Seq<ContextRowView>)
    ensures
        large_count(s) == s.filter(|e: ContextRowView| e.value.len() > 10240).len(),
    decreases s.len(),
{
    reveal(Seq::filter);
    if s.len() > 0 {
        lemma_large(s.drop_last());
    }
}

proof fn lemma_whole_share(total: int)
    requires
        total > 0,
    ensures
        share(total, total) == ONE,
        share(0, total) == 0,
        nearest(0) == 0,
{
    lemma_one();
    lemma_exact(1, 118);
    lemma_grain(ONE as int);
    lemma_grain(0);
    let g = grain(ONE as int);
    assert(1 * vstd::arithmetic::power2::pow2(118) == ONE);
    assert(total * ONE / total == ONE) by (nonlinear_arith)
        requires
            total > 0,
    ;
    let k = ONE as int / g;
    vstd::arithmetic::div_mod::lemma_fundamental_div_mod(ONE as int, g);
    assert(k * g == ONE) by (nonlinear_arith)
        requires
            ONE as int == g * k + 0,
    ;
    assert(total * ONE - k * g * total == 0) by (nonlinear_arith)
        requires
            k * g == ONE,
    ;
    assert(g * total > 0) by (nonlinear_arith)
        requires
            g >= 1,
            total > 0,
    ;
    assert(0 * ONE / total == 0) by (nonlinear_arith)
        requires
            total > 0,
    ;
    assert(0 * 1 * total == 0 && 1 * total == total) by (nonlinear_arith);
}

proof fn lemma_whole_points(m: int)
    requires
        0 <= m <= 1000,
    ensures
        nearest(m * ONE) == m * ONE,
{
    lemma_one();
    lemma_exact(m, 118);
}

/// What staleness, errors and size cost: where a sort of trouble is on every
/// entry, or on none, the score is a hundred points less forty for staleness,
/// fifty for errors and ten for size; and the word for it follows the score.
pub proof fn scores_weigh_the_troubles(
    s: Seq<ContextRowView>,
    now: Stamp,
    stale: bool,
    broken: bool,
    large: bool,
)
    requires
        s.len() > 0,
        health_of(s, now).stale_entries == if stale {
            s.len() as int
        } else {
            0
        },
        health_of(s, now).json_errors == if broken {
            s.len() as int
        } else {
            0
        },
        health_of(s, now).large_entries == if large {
            s.len() as int
        } else {
            0
        },
    ensures
        ({
            let score = 1000 - (if stale {
                400int
            } else {
                0
            }) - (if broken {
                500int
            } else {
                0
            }) - (if large {
                100int
            } else {
                0
            });
            let status = health_of(s, now).status;
            &&& health_of(s, now).health_score == score
            &&& score >= 900 ==> status == "excellent"@
            &&& 700 <= score < 900 ==> status == "good"@
            &&& 500 <= score < 700 ==> status == "needs_attention"@
            &&& score < 500 ==> status == "critical"@
        }),
{
    let total = s.len() as int;
    lemma_whole_share(total);
    let a: int = if stale {
        40
    } else {
        0
    };
    let b: int = if broken {
        50
    } else {
        0
    };
    let l: int = if large {
        10
    } else {
        0
    };
    lemma_whole_points(a);
    lemma_whole_points(b);
    lemma_whole_points(l);
    lemma_whole_points(100 - a);
    lemma_whole_points(100 - a - b);
    lemma_whole_points(100 - a - b - l);
    lemma_whole_points(10 * (100 - a - b - l));
    assert(cost(40, health_of(s, now).stale_entries, total) == a * ONE);
    assert(cost(50, health_of(s, now).json_errors, total) == b * ONE);
    assert(cost(10, health_of(s, now).large_entries, total) == l * ONE);
    assert(without(100 * ONE, a * ONE) == (100 - a) * ONE);
    assert(without((100 - a) * ONE, b * ONE) == (100 - a - b) * ONE);
    assert(without((100 - a - b) * ONE, l * ONE) == (100 - a - b - l) * ONE);
    let points = health_points(
        health_of(s, now).stale_entries,
        health_of(s, now).json_errors,
        health_of(s, now).large_entries,
        total,
    );
    assert(points == (100 - a - b - l) * ONE);
    assert(nearest(10 * points) == 10 * (100 - a - b - l) * ONE);
}

/// The word for a score: excellent from ninety points on, good from seventy,
/// in need of attention from fifty, and critical below. Each word has its sign.
pub proof fn words_go_with_the_points(stale: int, broken: int, large: int, total: int)
    ensures
        ({
            let points = health_points(stale, broken, large, total);
            let word = crate::context_health::health_word(stale, broken, large, total);
            &&& points >= 90 * ONE ==> word == "excellent"@
            &&& 70 * ONE <= points < 90 * ONE ==> word == "good"@
            &&& 50 * ONE <= points < 70 * ONE ==> word == "needs_attention"@
            &&& points < 50 * ONE ==> word == "critical"@
        }),
        crate::context_health::health_sign("excellent"@) == "\u{1f7e2}"@,
        crate::context_health::health_sign("good"@) == "\u{1f7e1}"@,
        crate::context_health::health_sign("needs_attention"@) == "\u{1f7e0}"@,
        crate::context_health::health_sign("critical"@) == "\u{1f534}"@,
{
    reveal_strlit("excellent");
    reveal_strlit("good");
    reveal_strlit("needs_attention");
    reveal_strlit("critical");
    assert("excellent"@.len() == 9);
    assert("good"@.len() == 4);
    assert("needs_attention"@.len() == 15);
    assert("critical"@.len() == 8);
}

/// Every entry whose value is no JSON, and every one that is old, undated or
/// large, is named in a report that has room for it; a report on a sound context
/// names none.
pub proof fn reports_name_the_troubles(s: Seq<ContextRowView>, now: Stamp, i: int)
    requires
        0 <= i < s.len(),
    ensures
        ({
            let e = s[i];
            let r = health_of(s, now);
            let many = health_warnings(s, now).len() > 5;
            &&& (json_read(e.value) is Err && r.json_errors <= 5) ==> r.issues.contains(
                "JSON parse error in '"@ + e.context_key + "'"@,
            )
            &&& r.json_errors <= 5 ==> r.issues.len() == r.json_errors
            &&& r.json_errors > 5 ==> r.issues.len() == 5
            &&& (!many && e.updated is None) ==> r.warnings.contains(
                "Invalid timestamp for '"@ + e.context_key + "'"@,
            )
            &&& (!many && e.updated is Some && days_since(now, e.updated->0) > 90)
                ==> r.warnings.contains(
                "'"@ + e.context_key + "' is "@ + crate::text::decimal_int(
                    days_since(now, e.updated->0),
                ) + " days old"@,
            )
            &&& (!many && e.value.len() > 10240) ==> r.warnings.contains(
                "'"@ + e.context_key + "' is large ("@ + decimal(e.value.len() / 1024) + "KB)"@,
            )
        }),
{
    lemma_health_issue(s, i);
    lemma_health_issue_count(s);
    let all = health_warnings(s, now);
    let mine = entry_warnings(s[i], now);
    let e = s[i];
    if !(all.len() > 5) {
        assert(crate::text::first_n(all, 5) =~= all);
        if e.updated is None {
            assert(mine[0] == "Invalid timestamp for '"@ + e.context_key + "'"@);
            lemma_warning(s, now, i, 0);
        } else if days_since(now, e.updated->0) > 90 {
            assert(mine[0] == "'"@ + e.context_key + "' is "@ + crate::text::decimal_int(
                days_since(now, e.updated->0),
            ) + " days old"@);
            lemma_warning(s, now, i, 0);
        }
        if e.value.len() > 10240 {
            assert(mine.last() == "'"@ + e.context_key + "' is large ("@ + decimal(
                e.value.len() / 1024,
            ) + "KB)"@);
            lemma_warning(s, now, i, mine.len() - 1);
        }
    }
    if health_issues(s).len() <= 5 {
        assert(crate::text::first_n(health_issues(s), 5) =~= health_issues(s));
    }
}

proof fn lemma_warning(s: Seq<ContextRowView>, now: Stamp, i: int, k: int)
    requires
        0 <= i < s.len(),
        0 <= k < entry_warnings(s[i], now).len(),
    ensures
        health_warnings(s, now).contains(entry_warnings(s[i], now)[k]),
    decreases s.len(),
{
    let front = health_warnings(s.drop_last(), now);
    let all = health_warnings(s, now);
    let line = entry_warnings(s[i], now)[k];
    if i < s.len() - 1 {
        lemma_warning(s.drop_last(), now, i, k);
        let j = choose|j: int| 0 <= j < front.len() && front[j] == line;
        assert(all[j] == line);
    } else {
        assert(all[front.len() + k] == line);
    }
}

proof fn lemma_health_issue(s: Seq<ContextRowView>, i: int)
    requires
        0 <= i < s.len(),
    ensures
        json_read(s[i].value) is Err ==> health_issues(s).contains(
            "JSON parse error in '"@ + s[i].context_key + "'"@,
        ),
    decreases s.len(),
{
    let front = health_issues(s.drop_last());
    let all = health_issues(s);
    let line = "JSON parse error in '"@ + s[i].context_key + "'"@;
    if json_read(s[i].value) is Err {
        if i < s.len() - 1 {
            lemma_health_issue(s.drop_last(), i);
            let j = choose|j: int| 0 <= j < front.len() && front[j] == line;
            assert(all[j] == line);
        } else {
            assert(all.last() == line);
        }
    }
}

proof fn lemma_health_issue_count(s: Seq<ContextRowView>)
    ensures
        health_issues(s).len() == broken_count(s),
    decreases s.len(),
{
    if s.len() > 0 {
        lemma_health_issue_count(s.drop_last());
    }
}

/// What is advised follows the troubles: errors are to be fixed, many stale
/// entries to be reviewed, large ones to be broken down and many to be archived.
pub proof fn advice_follows_the_troubles(s: Seq<ContextRowView>, now: Stamp)
    requires
        s.len() > 0,
    ensures
        ({
            let r = health_of(s, now);
            &&& r.json_errors > 0 <==> r.recommendations.contains(
                "Fix "@ + decimal(r.json_errors as nat)
                    + " JSON parsing errors using validate_context_consistency"@,
            )
            &&& 10 * r.stale_entries > 3 * r.total ==> r.recommendations.contains(
                "Review and update "@ + decimal(r.stale_entries as nat)
                    + " stale entries (30+ days old)"@,
            )
            &&& r.large_entries > 0 ==> r.recommendations.contains(
                "Consider breaking down "@ + decimal(r.large_entries as nat)
                    + " large entries into smaller components"@,
            )
            &&& r.total > 100 ==> r.recommendations.contains(
                "Consider archiving old context entries to improve performance"@,
            )
            &&& (r.json_errors <= 0 && 10 * r.stale_entries <= 3 * r.total && r.large_entries <= 0
                && r.total <= 100) ==> r.recommendations =~= seq![
                "Context health is excellent - no immediate action required"@,
            ]
        }),
{
    let r = health_of(s, now);
    let a = "Fix "@ + decimal(r.json_errors as nat)
        + " JSON parsing errors using validate_context_consistency"@;
    let b = "Review and update "@ + decimal(r.stale_entries as nat)
        + " stale entries (30+ days old)"@;
    let d = "Consider breaking down "@ + decimal(r.large_entries as nat)
        + " large entries into smaller components"@;
    let e = "Consider archiving old context entries to improve performance"@;
    let all = r.recommendations;
    let na: int = if r.json_errors > 0 {
        1
    } else {
        0
    };
    let nb: int = if 10 * r.stale_entries > 3 * r.total {
        1
    } else {
        0
    };
    let nd: int = if r.large_entries > 0 {
        1
    } else {
        0
    };
    if na == 1 {
        assert(all[0] == a);
    } else {
        let f = "Context health is excellent - no immediate action required"@;
        reveal_strlit("Fix ");
        reveal_strlit("Review and update ");
        reveal_strlit("Consider breaking down ");
        reveal_strlit("Consider archiving old context entries to improve performance");
        reveal_strlit("Context health is excellent - no immediate action required");
        assert(a[0] == 'F' && b[0] == 'R' && d[0] == 'C' && e[0] == 'C' && f[0] == 'C');
        assert(forall|i: int| 0 <= i < all.len() ==> #[trigger] all[i] != a);
    }
    if nb == 1 {
        assert(all[na] == b);
    }
    if nd == 1 {
        assert(all[na + nb] == d);
    }
    if r.total > 100 {
        assert(all[na + nb + nd] == e);
    }
}

/// A report as data: each of its parts under its own name.
pub proof fn reports_are_shown_in_full(r: HealthView)
    ensures
        ({
            let j = health_json(r);
            &&& text_field(j, "status"@) == Some(r.status)
            &&& field(j, "total"@) == Some(int_json(r.total))
            &&& field(j, "stale_entries"@) == Some(int_json(r.stale_entries))
            &&& field(j, "json_errors"@) == Some(int_json(r.json_errors))
            &&& field(j, "large_entries"@) == Some(int_json(r.large_entries))
            &&& list_field(j, "issues"@) is Some && list_field(j, "issues"@)->0.len()
                == r.issues.len()
            &&& forall|i: int|
                0 <= i < r.issues.len() ==> (#[trigger] list_field(j, "issues"@)->0[i])
                    == JsonView::Text(r.issues[i])
            &&& list_field(j, "warnings"@) is Some && list_field(j, "warnings"@)->0.len()
                == r.warnings.len()
            &&& forall|i: int|
                0 <= i < r.warnings.len() ==> (#[trigger] list_field(j, "warnings"@)->0[i])
                    == JsonView::Text(r.warnings[i])
            &&& list_field(j, "recommendations"@) is Some && list_field(
                j,
                "recommendations"@,
            )->0.len() == r.recommendations.len()
            &&& forall|i: int|
                0 <= i < r.recommendations.len() ==> (#[trigger] list_field(
                    j,
                    "recommendations"@,
                )->0[i]) == JsonView::Text(r.recommendations[i])
        }),
{
    reveal_strlit("status");
    reveal_strlit("health_score");
    reveal_strlit("total");
    reveal_strlit("stale_entries");
    reveal_strlit("json_errors");
    reveal_strlit("large_entries");
    reveal_strlit("issues");
    reveal_strlit("warnings");
    reveal_strlit("recommendations");
    assert("status"@.len() == 6);
    assert("health_score"@.len() == 12);
    assert("total"@.len() == 5);
    assert("stale_entries"@.len() == 13);
    assert("json_errors"@.len() == 11);
    assert("large_entries"@.len() == 13);
    assert("issues"@.len() == 6);
    assert("warnings"@.len() == 8);
    assert("recommendations"@.len() == 15);
    assert("issues"@[0] == 'i');
    assert("large_entries"@[0] == 'l');
    assert("stale_entries"@[0] == 's');
    assert("status"@[0] == 's');
}

// ---------------------------------------------------------------------
// Consistency
// ---------------------------------------------------------------------

/// Whether a check of a context names `line` among its issues.
pub open spec fn finds(c: CallView, rows: Seq<ContextRowView>, list: Seq<char>, line: Seq<char>) -> bool {
    let r = validate_next(c, seq![EventView::Contexts(rows)]);
    &&& r is Finish && r->Finish_0 is Success && r->Finish_0->Success_data is Some
    &&& list_field(r->Finish_0->Success_data->0, list) is Some
    &&& list_field(r->Finish_0->Success_data->0, list)->0.contains(JsonView::Text(line))
}

proof fn lemma_texts_contain(lines: Seq<Seq<char>>, line: Seq<char>)
    requires
        lines.contains(line),
    ensures
        crate::json::texts_json(lines)->List_0.contains(JsonView::Text(line)),
{
    let k = choose|k: int| 0 <= k < lines.len() && lines[k] == line;
    assert(crate::json::texts_json(lines)->List_0[k] == JsonView::Text(line));
}

/// A check of the context reads it, counts its entries, and names each value
/// that is no JSON, with the reason.
pub proof fn checks_find_every_broken_value(
    c: CallView,
    rows: Seq<ContextRowView>,
    now: Stamp,
    i: int,
)
    requires
        c.instant == Some(now),
        0 <= i < rows.len(),
    ensures
        validate_next(c, Seq::empty()) is ListContexts,
        json_read(rows[i].value) is Err ==> finds(
            c,
            rows,
            "issues"@,
            "Invalid JSON in '"@ + rows[i].context_key + "': "@ + json_read(rows[i].value)->Err_0,
        ),
        ({
            let r = validate_next(c, seq![EventView::Contexts(rows)]);
            &&& r is Finish && r->Finish_0 is Success && r->Finish_0->Success_data is Some
            &&& field(r->Finish_0->Success_data->0, "total_entries"@) == Some(
                int_json(rows.len() as int),
            )
        }),
{
    reveal_strlit("total_entries");
    reveal_strlit("issues");
    reveal_strlit("warnings");
    assert("total_entries"@.len() == 13);
    assert("issues"@.len() == 6);
    assert("warnings"@.len() == 8);
    let h = seq![EventView::Contexts(rows)];
    assert(h[0] == EventView::Contexts(rows));
    if json_read(rows[i].value) is Err {
        let line = "Invalid JSON in '"@ + rows[i].context_key + "': "@
            + json_read(rows[i].value)->Err_0;
        lemma_json_issue(rows, i);
        let all = consistency_of(rows, now).issues;
        let k = choose|k: int| 0 <= k < json_issues(rows).len() && json_issues(rows)[k] == line;
        assert(all[k] == line);
        lemma_texts_contain(all, line);
    }
}

proof fn lemma_json_issue(s: Seq<ContextRowView>, i: int)
    requires
        0 <= i < s.len(),
        json_read(s[i].value) is Err,
    ensures
        json_issues(s).contains(
            "Invalid JSON in '"@ + s[i].context_key + "': "@ + json_read(s[i].value)->Err_0,
        ),
    decreases s.len(),
{
    let line = "Invalid JSON in '"@ + s[i].context_key + "': "@ + json_read(s[i].value)->Err_0;
    let front = json_issues(s.drop_last());
    if i < s.len() - 1 {
        lemma_json_issue(s.drop_last(), i);
        let j = choose|j: int| 0 <= j < front.len() && front[j] == line;
        assert(json_issues(s)[j] == line);
    } else {
        assert(json_issues(s).last() == line);
    }
}

/// A key that an earlier one differs from in letter case at most is named, with
/// one that it is alike.
pub proof fn checks_find_keys_that_are_alike(
    c: CallView,
    rows: Seq<ContextRowView>,
    now: Stamp,
    i: int,
    j: int,
)
    requires
        c.instant == Some(now),
        0 <= i < j < rows.len(),
        lowercase(rows[i].context_key) == lowercase(rows[j].context_key),
    ensures
        exists|k: int|
            0 <= k < j && lowercase(rows[k].context_key) == lowercase(rows[j].context_key)
                && #[trigger] finds(
                c,
                rows,
                "issues"@,
                "Potential duplicate keys: '"@ + rows[k].context_key + "' and '"@
                    + rows[j].context_key + "'"@,
            ),
{
    reveal_strlit("total_entries");
    reveal_strlit("issues");
    reveal_strlit("warnings");
    assert("total_entries"@.len() == 13);
    assert("issues"@.len() == 6);
    assert("warnings"@.len() == 8);
    let h = seq![EventView::Contexts(rows)];
    assert(h[0] == EventView::Contexts(rows));
    let k = lemma_duplicate(rows, i, j);
    let line = "Potential duplicate keys: '"@ + rows[k].context_key + "' and '"@
        + rows[j].context_key + "'"@;
    let all = consistency_of(rows, now).issues;
    let m = choose|m: int|
        0 <= m < duplicate_issues(rows).len() && duplicate_issues(rows)[m] == line;
    assert(all[json_issues(rows).len() + m] == line);
    lemma_texts_contain(all, line);
    assert(finds(c, rows, "issues"@, line));
}

proof fn lemma_duplicate(s: Seq<ContextRowView>, i: int, j: int) -> (k: int)
    requires
        0 <= i < j < s.len(),
        lowercase(s[i].context_key) == lowercase(s[j].context_key),
    ensures
        0 <= k < j,
        lowercase(s[k].context_key) == lowercase(s[j].context_key),
        duplicate_issues(s).contains(
            "Potential duplicate keys: '"@ + s[k].context_key + "' and '"@ + s[j].context_key + "'"@,
        ),
    decreases s.len(),
{
    let t = s.drop_last();
    let front = duplicate_issues(t);
    if j < s.len() - 1 {
        let k = lemma_duplicate(t, i, j);
        let line = "Potential duplicate keys: '"@ + s[k].context_key + "' and '"@
            + s[j].context_key + "'"@;
        let m = choose|m: int| 0 <= m < front.len() && front[m] == line;
        assert(duplicate_issues(s)[m] == line);
        k
    } else {
        let k = lemma_first_alike(t, s[j].context_key, i);
        let line = "Potential duplicate keys: '"@ + s[k].context_key + "' and '"@
            + s[j].context_key + "'"@;
        assert(duplicate_issues(s).last() == line);
        k
    }
}

proof fn lemma_first_alike(s: Seq<ContextRowView>, key: Seq<char>, i: int) -> (k: int)
    requires
        0 <= i < s.len(),
        lowercase(s[i].context_key) == lowercase(key),
    ensures
        0 <= k < s.len(),
        lowercase(s[k].context_key) == lowercase(key),
        first_alike(s, key) == Some(s[k].context_key),
    decreases s.len(),
{
    let t = s.drop_last();
    if first_alike(t, key) is Some {
        lemma_alike_is_there(t, key)
    } else if i < t.len() {
        lemma_first_alike(t, key, i)
    } else {
        i
    }
}

proof fn lemma_alike_is_there(s: Seq<ContextRowView>, key: Seq<char>) -> (k: int)
    requires
        first_alike(s, key) is Some,
    ensures
        0 <= k < s.len(),
        lowercase(s[k].context_key) == lowercase(key),
        first_alike(s, key) == Some(s[k].context_key),
    decreases s.len(),
{
    if first_alike(s.drop_last(), key) is Some {
        lemma_alike_is_there(s.drop_last(), key)
    } else {
        s.len() - 1
    }
}

/// An entry without a description, one that was last written more than thirty
/// days ago, and one of more than ten thousand characters is named in a warning,
/// where there is room for all of its sort: for ten, five and five.
pub proof fn checks_warn_of_neglected_entries(
    c: CallView,
    rows: Seq<ContextRowView>,
    now: Stamp,
    i: int,
)
    requires
        c.instant == Some(now),
        0 <= i < rows.len(),
    ensures
        ({
            let e = rows[i];
            &&& ((e.description is None || e.description->0.len() == 0) && missing_lines(rows).len()
                <= 10) ==> finds(
                c,
                rows,
                "warnings"@,
                "Missing description: '"@ + e.context_key + "'"@,
            )
            &&& (e.updated is Some && (e.updated->0.secs * 1_000_000_000 + e.updated->0.nanos)
                + 30 * 86_400_000_000_000 < now.secs * 1_000_000_000 + now.nanos && old_lines(
                rows,
                now,
            ).len() <= 5) ==> finds(
                c,
                rows,
                "warnings"@,
                "Old entry (>30 days): '"@ + e.context_key + "'"@,
            )
            &&& (e.value.len() > 10000 && large_lines(rows).len() <= 5) ==> finds(
                c,
                rows,
                "warnings"@,
                "Large entry: "@ + e.context_key + " ("@ + decimal(e.value.len()) + " chars)"@,
            )
        }),
{
    reveal_strlit("total_entries");
    reveal_strlit("issues");
    reveal_strlit("warnings");
    assert("total_entries"@.len() == 13);
    assert("issues"@.len() == 6);
    assert("warnings"@.len() == 8);
    let h = seq![EventView::Contexts(rows)];
    assert(h[0] == EventView::Contexts(rows));
    let e = rows[i];
    let all = consistency_of(rows, now).warnings;
    let a = crate::context_health::capped(missing_lines(rows), 10, " more missing descriptions"@);
    let b = crate::context_health::capped(old_lines(rows, now), 5, " more old entries"@);
    if (e.description is None || e.description->0.len() == 0) && missing_lines(rows).len() <= 10 {
        let line = "Missing description: '"@ + e.context_key + "'"@;
        lemma_missing(rows, i);
        let k = choose|k: int| 0 <= k < missing_lines(rows).len() && missing_lines(rows)[k] == line;
        assert(all[k] == line);
        lemma_texts_contain(all, line);
    }
    if e.updated is Some && (e.updated->0.secs * 1_000_000_000 + e.updated->0.nanos) + 30
        * 86_400_000_000_000 < now.secs * 1_000_000_000 + now.nanos && old_lines(rows, now).len()
        <= 5 {
        let line = "Old entry (>30 days): '"@ + e.context_key + "'"@;
        lemma_old(rows, now, i);
        let k = choose|k: int|
            0 <= k < old_lines(rows, now).len() && old_lines(rows, now)[k] == line;
        assert(all[a.len() + k] == line);
        lemma_texts_contain(all, line);
    }
    if e.value.len() > 10000 && large_lines(rows).len() <= 5 {
        let line = "Large entry: "@ + e.context_key + " ("@ + decimal(e.value.len()) + " chars)"@;
        lemma_large_line(rows, i);
        let k = choose|k: int| 0 <= k < large_lines(rows).len() && large_lines(rows)[k] == line;
        assert(all[a.len() + b.len() + k] == line);
        lemma_texts_contain(all, line);
    }
}

proof fn lemma_missing(s: Seq<ContextRowView>, i: int)
    requires
        0 <= i < s.len(),
        s[i].description is None || s[i].description->0.len() == 0,
    ensures
        missing_lines(s).contains("Missing description: '"@ + s[i].context_key + "'"@),
    decreases s.len(),
{
    let line = "Missing description: '"@ + s[i].context_key + "'"@;
    let front = missing_lines(s.drop_last());
    if i < s.len() - 1 {
        lemma_missing(s.drop_last(), i);
        let j = choose|j: int| 0 <= j < front.len() && front[j] == line;
        assert(missing_lines(s)[j] == line);
    } else {
        assert(missing_lines(s).last() == line);
    }
}

proof fn lemma_old(s: Seq<ContextRowView>, now: Stamp, i: int)
    requires
        0 <= i < s.len(),
        s[i].updated is Some && (s[i].updated->0.secs * 1_000_000_000 + s[i].updated->0.nanos) + 30
            * 86_400_000_000_000 < now.secs * 1_000_000_000 + now.nanos,
    ensures
        old_lines(s, now).contains("Old entry (>30 days): '"@ + s[i].context_key + "'"@),
    decreases s.len(),
{
    let line = "Old entry (>30 days): '"@ + s[i].context_key + "'"@;
    let front = old_lines(s.drop_last(), now);
    if i < s.len() - 1 {
        lemma_old(s.drop_last(), now, i);
        let j = choose|j: int| 0 <= j < front.len() && front[j] == line;
        assert(old_lines(s, now)[j] == line);
    } else {
        assert(old_lines(s, now).last() == line);
    }
}

proof fn lemma_large_line(s: Seq<ContextRowView>, i: int)
    requires
        0 <= i < s.len(),
        s[i].value.len() > 10000,
    ensures
        large_lines(s).contains(
            "Large entry: "@ + s[i].context_key + " ("@ + decimal(s[i].value.len()) + " chars)"@,
        ),
    decreases s.len(),
{
    let line = "Large entry: "@ + s[i].context_key + " ("@ + decimal(s[i].value.len())
        + " chars)"@;
    let front = large_lines(s.drop_last());
    if i < s.len() - 1 {
        lemma_large_line(s.drop_last(), i);
        let j = choose|j: int| 0 <= j < front.len() && front[j] == line;
        assert(large_lines(s)[j] == line);
    } else {
        assert(large_lines(s).last() == line);
    }
}

/// A check finds nothing in a context whose values are all JSON, whose keys are
/// all different, letter case aside, and whose entries are all described, fresh
/// and small.
pub proof fn sound_contexts_pass_the_check(s: Seq<ContextRowView>, now: Stamp)
    requires
        forall|i: int|
            0 <= i < s.len() ==> {
                let e = #[trigger] s[i];
                &&& json_read(e.value) is Ok
                &&& e.description is Some && e.description->0.len() > 0
                &&& e.updated is Some && days_since(now, e.updated->0) < 30
                &&& e.value.len() <= 10000
            },
        forall|i: int, j: int|
            0 <= i < j < s.len() ==> #[trigger] lowercase(s[i].context_key) != #[trigger] lowercase(
                s[j].context_key,
            ),
    ensures
        consistency_of(s, now).issues =~= Seq::<Seq<char>>::empty(),
        consistency_of(s, now).warnings =~= Seq::<Seq<char>>::empty(),
    decreases s.len(),
{
    if s.len() > 0 {
        let t = s.drop_last();
        assert forall|i: int| 0 <= i < t.len() implies {
            let e = #[trigger] t[i];
            &&& json_read(e.value) is Ok
            &&& e.description is Some && e.description->0.len() > 0
            &&& e.updated is Some && days_since(now, e.updated->0) < 30
            &&& e.value.len() <= 10000
        } by {
            assert(t[i] == s[i]);
        }
        assert forall|i: int, j: int| 0 <= i < j < t.len() implies #[trigger] lowercase(
            t[i].context_key,
        ) != #[trigger] lowercase(t[j].context_key) by {
            assert(t[i] == s[i] && t[j] == s[j]);
            assert(lowercase(s[i].context_key) != lowercase(s[j].context_key));
        }
        sound_contexts_pass_the_check(t, now);
        lemma_sound(t, now);
        let e = s[s.len() - 1];
        assert(e == s.last());
        assert(json_read(e.value) is Ok);
        if first_alike(t, e.context_key) is Some {
            let k = lemma_alike_is_there(t, e.context_key);
            assert(t[k] == s[k]);
            assert(lowercase(s[k].context_key) != lowercase(s[s.len() - 1].context_key));
        }
        crate::context_laws::ages_are_whole_days(now, e.updated->0);
    }
}

proof fn lemma_sound(t: Seq<ContextRowView>, now: Stamp)
    requires
        consistency_of(t, now).issues =~= Seq::<Seq<char>>::empty(),
        consistency_of(t, now).warnings =~= Seq::<Seq<char>>::empty(),
    ensures
        json_issues(t).len() == 0,
        duplicate_issues(t).len() == 0,
        missing_lines(t).len() == 0,
        old_lines(t, now).len() == 0,
        large_lines(t).len() == 0,
{
    assert((json_issues(t) + duplicate_issues(t)).len() == 0);
    assert(consistency_of(t, now).warnings.len() == 0);
}

/// Keys are made of ASCII letters, digits, full stops, underscores, slashes and
/// hyphens, and of nothing else.
pub proof fn keys_are_plain(s: Seq<char>, i: int)
    ensures
        is_key(seq![s[i]]) <==> {
            let c = s[i] as int;
            ||| 65 <= c <= 90
            ||| 97 <= c <= 122
            ||| 48 <= c <= 57
            ||| 45 <= c <= 47
            ||| c == 95
        },
        is_key(s) && 0 <= i < s.len() ==> is_key(seq![s[i]]),
        s.len() == 0 ==> !is_key(s),
        s.len() > 0 && (forall|k: int| 0 <= k < s.len() ==> is_key(seq![#[trigger] s[k]])) ==> is_key(
            s,
        ),
{
    let one = seq![s[i]];
    assert(one[0] == s[i]);
    if s.len() > 0 && (forall|k: int| 0 <= k < s.len() ==> is_key(seq![#[trigger] s[k]])) {
        assert forall|k: int| 0 <= k < s.len() implies crate::context_health::is_key_char(
            #[trigger] s[k],
        ) by {
            assert(is_key(seq![s[k]]));
            assert(seq![s[k]][0] == s[k]);
        }
    }
}

/// The characters that mislead the eye: the control characters, those without a
/// width, the separators of lines and paragraphs, those that turn the direction
/// of the text, and the byte order mark.
pub proof fn misleading_characters(c: char)
    ensures
        is_unsafe(c) <==> {
            ||| c < ' '
            ||| c == '\u{7f}'
            ||| '\u{200b}' <= c <= '\u{200f}'
            ||| '\u{2028}' <= c <= '\u{202e}'
            ||| '\u{2060}' <= c <= '\u{2064}'
            ||| '\u{2066}' <= c <= '\u{206f}'
            ||| c == '\u{feff}'
        },
{
}

} // verus!
