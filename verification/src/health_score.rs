//! How the score of a project context relates to the exact share of entries
//! that are stale, broken or large.

use crate::context_health::{
    broken_count, cost, health_of, health_points, health_reports_are_bounded, health_tenths,
    health_word, is_broken, is_large, is_stale, large_count, stale_count, without,
};
use crate::protocol::{ContextRowView, Stamp};
use crate::rounding::{
    gap, grain, lemma_nearest_bounds, nearest, rounding_is_close, share, shares_are_close, DIGITS, ONE,
};
use vstd::arithmetic::div_mod::{lemma_div_denominator, lemma_fundamental_div_mod_converse};
use vstd::prelude::*;

verus! {

/// The most entries for which rounding to 53 digits cannot show in the tenths.
pub const MANY_ENTRIES: u64 = 0x40_0000_0000;

/// Ten times the exact score by the number of entries: a hundred points less
/// forty for the share of stale entries, fifty for that of broken ones and ten
/// for that of large ones.
pub open spec fn exact_score(stale: int, broken: int, large: int, total: int) -> int {
    1000 * total - 400 * stale - 500 * broken - 100 * large
}

/// The word for an exact score.
pub open spec fn exact_word(stale: int, broken: int, large: int, total: int) -> Seq<char> {
    let score = exact_score(stale, broken, large, total);
    if score >= 900 * total {
        "excellent"@
    } else if score >= 700 * total {
        "good"@
    } else if score >= 500 * total {
        "needs_attention"@
    } else {
        "critical"@
    }
}

proof fn lemma_gap_times(a: int, b: int, t: int)
    requires
        t >= 0,
    ensures
        gap(a * t, b * t) == gap(a, b) * t,
{
    assert((a - b) * t == a * t - b * t) by (nonlinear_arith);
    assert((b - a) * t == b * t - a * t) by (nonlinear_arith);
    if a >= b {
        assert((a - b) * t >= 0) by (nonlinear_arith)
            requires
                a >= b,
                t >= 0,
        ;
    } else {
        assert((b - a) * t >= 0) by (nonlinear_arith)
            requires
                b >= a,
                t >= 0,
        ;
    }
}

proof fn lemma_cost(w: int, count: int, total: int)
    requires
        0 < w <= 50,
        0 <= count <= total,
        0 < total < 0x1_0000_0000_0000_0000,
    ensures
        cost(w, count, total) >= 0,
        DIGITS * gap(cost(w, count, total) * total, w * (count * ONE)) <= 3 * (w * (total * ONE)),
{
    let x = share(count, total);
    let y = w * x;
    let c = cost(w, count, total);
    let xt = x * total;
    let whole = count * ONE;
    shares_are_close(count, total);
    assert(y >= 0) by (nonlinear_arith)
        requires
            y == w * x,
            w > 0,
            x >= 0,
    ;
    rounding_is_close(y);
    lemma_nearest_bounds(y);
    lemma_gap_times(c, y, total);
    lemma_gap_times(xt, whole, w);
    assert(y * total == xt * w) by (nonlinear_arith)
        requires
            y == w * x,
            xt == x * total,
    ;
    assert(whole * w == w * (count * ONE)) by (nonlinear_arith)
        requires
            whole == count * ONE,
    ;
    assert(xt <= 2 * whole);
    assert(xt * w <= 2 * (whole * w)) by (nonlinear_arith)
        requires
            xt <= 2 * whole,
            w > 0,
    ;
    let near = gap(c, y);
    assert(DIGITS * (near * total) <= y * total) by (nonlinear_arith)
        requires
            DIGITS * near <= y,
            total > 0,
    ;
    let off = gap(xt, whole);
    assert(DIGITS * (off * w) <= whole * w) by (nonlinear_arith)
        requires
            DIGITS * off <= whole,
            w > 0,
    ;
    assert(whole * w <= w * (total * ONE)) by (nonlinear_arith)
        requires
            whole == count * ONE,
            count <= total,
            w > 0,
    ;
}

proof fn lemma_without(x: int, exact: int, off: int, c: int, taken: int, more: int, total: int)
    requires
        0 <= x <= 103 * ONE,
        c >= 0,
        total > 0,
        exact >= taken,
        DIGITS * gap(x * total, exact) <= off,
        DIGITS * gap(c * total, taken) <= more,
    ensures
        0 <= without(x, c) <= x + ONE,
        DIGITS * gap(without(x, c) * total, exact - taken) <= off + more + 103 * (total * ONE),
{
    let d = if x > c {
        x - c
    } else {
        0
    };
    let z = without(x, c);
    rounding_is_close(d);
    lemma_nearest_bounds(d);
    lemma_gap_times(z, d, total);
    let near = gap(z, d);
    assert(DIGITS * (near * total) <= 103 * (total * ONE)) by (nonlinear_arith)
        requires
            DIGITS * near <= d,
            d <= 103 * ONE,
            total > 0,
    ;
    assert((x - c) * total == x * total - c * total) by (nonlinear_arith);
    assert(0 * total == 0) by (nonlinear_arith);
    if x <= c {
        assert((x - c) * total <= 0) by (nonlinear_arith)
            requires
                x <= c,
                total > 0,
        ;
    }
    assert(gap(d * total, exact - taken) <= gap(x * total, exact) + gap(c * total, taken));
}

proof fn lemma_points_close(stale: int, broken: int, large: int, total: int)
    requires
        0 <= stale <= total,
        0 <= broken <= total,
        0 <= large <= total,
        0 < total < 0x1_0000_0000_0000_0000,
    ensures
        0 <= health_points(stale, broken, large, total) <= 100 * ONE,
        DIGITS * gap(
            10 * (health_points(stale, broken, large, total) * total),
            exact_score(stale, broken, large, total) * ONE,
        ) <= 6090 * (total * ONE),
{
    let all = total * ONE;
    let s = stale * ONE;
    let b = broken * ONE;
    let l = large * ONE;
    lemma_cost(40, stale, total);
    lemma_cost(50, broken, total);
    lemma_cost(10, large, total);
    assert(100 * ONE * total == 100 * all) by (nonlinear_arith)
        requires
            all == total * ONE,
    ;
    lemma_without(
        100 * ONE,
        100 * all,
        0,
        cost(40, stale, total),
        40 * s,
        120 * all,
        total,
    );
    let p = without(100 * ONE, cost(40, stale, total));
    lemma_without(
        p,
        100 * all - 40 * s,
        223 * all,
        cost(50, broken, total),
        50 * b,
        150 * all,
        total,
    );
    let q = without(p, cost(50, broken, total));
    lemma_without(
        q,
        100 * all - 40 * s - 50 * b,
        476 * all,
        cost(10, large, total),
        10 * l,
        30 * all,
        total,
    );
    let r = without(q, cost(10, large, total));
    let points = health_points(stale, broken, large, total);
    if r > 100 * ONE {
        assert(r * total >= points * total) by (nonlinear_arith)
            requires
                r >= points,
                total > 0,
        ;
    }
    assert(exact_score(stale, broken, large, total) * ONE == 1000 * all - 400 * s - 500 * b - 100
        * l);
}

/// A score is what the shares of stale, broken and large entries leave of a
/// hundred points, to the nearest tenth: it is off the exact score by no more
/// than half a tenth and what rounding to 53 digits costs.
pub proof fn scores_are_close(stale: int, broken: int, large: int, total: int)
    requires
        0 <= stale <= total,
        0 <= broken <= total,
        0 <= large <= total,
        0 < total < 0x1_0000_0000_0000_0000,
    ensures
        2 * DIGITS * gap(
            health_tenths(stale, broken, large, total) * total,
            exact_score(stale, broken, large, total),
        ) <= (DIGITS + 14180) * total,
{
    let points = health_points(stale, broken, large, total);
    let exact = exact_score(stale, broken, large, total);
    lemma_points_close(stale, broken, large, total);
    let y = nearest(10 * points);
    let t = health_tenths(stale, broken, large, total);
    rounding_is_close(10 * points);
    lemma_gap_times(y, 10 * points, total);
    let near = gap(y, 10 * points);
    assert(DIGITS * (near * total) <= 1000 * (total * ONE)) by (nonlinear_arith)
        requires
            DIGITS * near <= 1000 * ONE,
            total > 0,
    ;
    assert((10 * points) * total == 10 * (points * total)) by (nonlinear_arith);
    assert(2 * gap(t * ONE, y) <= ONE);
    lemma_gap_times(t * ONE, y, total);
    let step = gap(t * ONE, y);
    assert(2 * (step * total) <= total * ONE) by (nonlinear_arith)
        requires
            2 * step <= ONE,
            total > 0,
    ;
    assert((t * ONE) * total == (t * total) * ONE) by (nonlinear_arith);
    lemma_gap_times(t * total, exact, ONE as int);
    let off = gap(t * total, exact);
    assert(2 * (DIGITS * (off * ONE)) <= DIGITS * (total * ONE) + 14180 * (total * ONE));
    let twice = 2 * DIGITS * off;
    let most = (DIGITS + 14180) * total;
    assert(twice * ONE == 2 * (DIGITS * (off * ONE))) by (nonlinear_arith)
        requires
            twice == 2 * DIGITS * off,
    ;
    assert(most * ONE == DIGITS * (total * ONE) + 14180 * (total * ONE)) by (nonlinear_arith)
        requires
            most == (DIGITS + 14180) * total,
    ;
    assert(twice <= most) by (nonlinear_arith)
        requires
            twice * ONE <= most * ONE,
            ONE > 0,
    ;
}

/// Up to 2^38 entries, a score is the exact score rounded to a nearest tenth:
/// it is never off by more than half a tenth. Where one tenth is nearest, it is
/// that one; of two that are equally near, it is one or the other.
pub proof fn scores_round_to_the_nearest_tenth(stale: int, broken: int, large: int, total: int)
    requires
        0 <= stale <= total,
        0 <= broken <= total,
        0 <= large <= total,
        0 < total <= MANY_ENTRIES,
    ensures
        ({
            let score = health_tenths(stale, broken, large, total);
            let exact = exact_score(stale, broken, large, total);
            let rounded = (2 * exact + total) / (2 * total);
            &&& 2 * gap(score * total, exact) <= total
            &&& (2 * exact + total) % (2 * total) != 0 ==> score == rounded
            &&& score == rounded || score == rounded - 1
        }),
{
    let t = health_tenths(stale, broken, large, total);
    let exact = exact_score(stale, broken, large, total);
    scores_are_close(stale, broken, large, total);
    let off = gap(t * total, exact);
    assert(2 * off <= total);
    let rest = 2 * exact + total - 2 * (t * total);
    assert(t * (2 * total) == 2 * (t * total)) by (nonlinear_arith);
    assert(0 <= rest <= 2 * total);
    if rest == 2 * total {
        assert((t + 1) * (2 * total) == t * (2 * total) + 2 * total) by (nonlinear_arith);
        lemma_fundamental_div_mod_converse(2 * exact + total, 2 * total, t + 1, 0);
    } else {
        lemma_fundamental_div_mod_converse(2 * exact + total, 2 * total, t, rest);
    }
}

/// The word next below, where the exact score stands just on the threshold of
/// a word.
pub open spec fn word_below(stale: int, broken: int, large: int, total: int) -> Option<Seq<char>> {
    let score = exact_score(stale, broken, large, total);
    if score == 900 * total {
        Some("good"@)
    } else if score == 700 * total {
        Some("needs_attention"@)
    } else if score == 500 * total {
        Some("critical"@)
    } else {
        None
    }
}

/// Up to 2^38 entries, the word for a score is the word for the exact score.
/// Only where that stands just on a threshold can it be the word next below.
pub proof fn words_follow_the_exact_score(stale: int, broken: int, large: int, total: int)
    requires
        0 <= stale <= total,
        0 <= broken <= total,
        0 <= large <= total,
        0 < total <= MANY_ENTRIES,
    ensures
        health_word(stale, broken, large, total) == exact_word(stale, broken, large, total) || Some(
            health_word(stale, broken, large, total),
        ) == word_below(stale, broken, large, total),
{
    lemma_points_close(stale, broken, large, total);
    let points = health_points(stale, broken, large, total);
    let exact = exact_score(stale, broken, large, total);
    if exact != 900 * total {
        lemma_threshold(points, exact, 90, total);
    }
    if exact != 700 * total {
        lemma_threshold(points, exact, 70, total);
    }
    if exact != 500 * total {
        lemma_threshold(points, exact, 50, total);
    }
}

proof fn lemma_threshold(points: int, exact: int, mark: int, total: int)
    requires
        0 < total <= MANY_ENTRIES,
        0 < mark <= 100,
        exact != 10 * mark * total,
        DIGITS * gap(10 * (points * total), exact * ONE) <= 6090 * (total * ONE),
    ensures
        points >= mark * ONE <==> exact >= 10 * mark * total,
{
    let line = (mark * total) * ONE;
    assert((mark * ONE) * total == line) by (nonlinear_arith)
        requires
            line == (mark * total) * ONE,
    ;
    let m = mark * total;
    assert(10 * mark * total == 10 * m) by (nonlinear_arith)
        requires
            m == mark * total,
    ;
    if exact > 10 * m {
        if points < mark * ONE {
            assert(points * total <= (mark * ONE) * total) by (nonlinear_arith)
                requires
                    points < mark * ONE,
                    total > 0,
            ;
        }
    } else {
        if points >= mark * ONE {
            assert(points * total >= (mark * ONE) * total) by (nonlinear_arith)
                requires
                    points >= mark * ONE,
                    total > 0,
            ;
        }
    }
}

/// The counts of a report are full counts: every entry that is stale, broken
/// or large is in them, once.
pub proof fn counts_are_full(s: Seq<ContextRowView>, now: Stamp)
    ensures
        stale_count(s, now) == s.filter(|e: ContextRowView| is_stale(e, now)).len(),
        broken_count(s) == s.filter(|e: ContextRowView| is_broken(e)).len(),
        large_count(s) == s.filter(|e: ContextRowView| is_large(e)).len(),
        0 <= stale_count(s, now) <= s.len(),
        0 <= broken_count(s) <= s.len(),
        0 <= large_count(s) <= s.len(),
    decreases s.len(),
{
    reveal(Seq::filter);
    if s.len() > 0 {
        counts_are_full(s.drop_last(), now);
    }
}

/// What a report says: how many entries there are, how many of them are stale,
/// broken and large, the exact score rounded to a nearest tenth, from nothing to
/// a hundred points, and the word for it. On a tie of two tenths, and on the
/// threshold of a word, double precision decides between the two.
pub proof fn reports_follow_the_exact_score(s: Seq<ContextRowView>, now: Stamp)
    requires
        0 < s.len() <= MANY_ENTRIES,
    ensures
        ({
            let r = health_of(s, now);
            let total = s.len() as int;
            let exact = exact_score(r.stale_entries, r.json_errors, r.large_entries, total);
            let rounded = (2 * exact + total) / (2 * total);
            &&& r.total == total
            &&& r.stale_entries == s.filter(|e: ContextRowView| is_stale(e, now)).len()
            &&& r.json_errors == s.filter(|e: ContextRowView| is_broken(e)).len()
            &&& r.large_entries == s.filter(|e: ContextRowView| is_large(e)).len()
            &&& 0 <= r.health_score <= 1000
            &&& 2 * gap(r.health_score * total, exact) <= total
            &&& (2 * exact + total) % (2 * total) != 0 ==> r.health_score == rounded
            &&& r.health_score == rounded || r.health_score == rounded - 1
            &&& r.status == exact_word(r.stale_entries, r.json_errors, r.large_entries, total)
                || Some(r.status) == word_below(
                r.stale_entries,
                r.json_errors,
                r.large_entries,
                total,
            )
        }),
{
    let total = s.len() as int;
    counts_are_full(s, now);
    health_reports_are_bounded(s, now);
    scores_round_to_the_nearest_tenth(
        stale_count(s, now),
        broken_count(s),
        large_count(s),
        total,
    );
    words_follow_the_exact_score(stale_count(s, now), broken_count(s), large_count(s), total);
}

proof fn lemma_counts_add(s: Seq<ContextRowView>, t: Seq<ContextRowView>, now: Stamp)
    ensures
        stale_count(s + t, now) == stale_count(s, now) + stale_count(t, now),
        broken_count(s + t) == broken_count(s) + broken_count(t),
        large_count(s + t) == large_count(s) + large_count(t),
    decreases t.len(),
{
    if t.len() == 0 {
        assert(s + t == s);
    } else {
        lemma_counts_add(s, t.drop_last(), now);
        assert((s + t).drop_last() == s + t.drop_last());
    }
}

proof fn lemma_share_doubled(p: int, q: int)
    requires
        p >= 0,
        q > 0,
    ensures
        share(2 * p, 2 * q) == share(p, q),
{
    lemma_div_denominator(2 * p * ONE, 2, q);
    assert((2 * p * ONE) / 2 == p * ONE);
    let n = p * ONE / q;
    let g = grain(n);
    let k = n / g;
    assert(2 * p * ONE - k * g * (2 * q) == 2 * (p * ONE - k * g * q)) by (nonlinear_arith);
    assert(g * (2 * q) == 2 * (g * q)) by (nonlinear_arith);
}

/// Every entry twice makes the same score and the same word.
pub proof fn doubled_contexts_score_alike(s: Seq<ContextRowView>, now: Stamp)
    ensures
        health_of(s + s, now).health_score == health_of(s, now).health_score,
        health_of(s + s, now).status == health_of(s, now).status,
{
    if s.len() > 0 {
        let total = s.len() as int;
        lemma_counts_add(s, s, now);
        counts_are_full(s, now);
        lemma_share_doubled(stale_count(s, now), total);
        lemma_share_doubled(broken_count(s), total);
        lemma_share_doubled(large_count(s), total);
    }
}

} // verus!
