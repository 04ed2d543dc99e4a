//! What holds of the texts that the tools build and take apart.

use crate::env::{digits_value, is_digit, number_in, setting};
use crate::text::{
    begins_with, decimal, decimal_int, digit, first_n, holds, holds_at, is_space, joined, led,
    shortened, text_before, trim_back, trim_front, trimmed, without_trailing,
};
use vstd::prelude::*;

verus! {

/// A text holds each of three parts that it is put together from.
pub proof fn sums_hold_their_parts(a: Seq<char>, b: Seq<char>, c: Seq<char>)
    ensures
        holds(a + b + c, a),
        holds(a + b + c, b),
        holds(a + b + c, c),
{
    let s = a + b + c;
    let n = a.len() as int;
    let m = (a + b).len() as int;
    assert(s.subrange(0, n) =~= a);
    assert(s.subrange(n, n + b.len()) =~= b);
    assert(s.subrange(m, m + c.len()) =~= c);
    assert(holds_at(s, a, 0));
    assert(holds_at(s, b, n));
    assert(holds_at(s, c, m));
}

/// What a part of a text holds, the text holds.
pub proof fn parts_of_parts_are_held(s: Seq<char>, t: Seq<char>, u: Seq<char>)
    requires
        holds(s, t),
        holds(t, u),
    ensures
        holds(s, u),
{
    let i = choose|i: int| #[trigger] holds_at(s, t, i);
    let j = choose|j: int| #[trigger] holds_at(t, u, j);
    assert(s.subrange(i + j, i + j + u.len()) =~= t.subrange(j, j + u.len()));
    assert(holds_at(s, u, i + j));
}

/// A text holds another just when it is some text, then the other, then some
/// text.
pub proof fn holding_is_standing_between(s: Seq<char>, part: Seq<char>)
    ensures
        holds(s, part) <==> exists|a: Seq<char>, b: Seq<char>| s == #[trigger] (a + part + b),
{
    if holds(s, part) {
        let i = choose|i: int| #[trigger] holds_at(s, part, i);
        let a = s.subrange(0, i);
        let b = s.subrange(i + part.len(), s.len() as int);
        assert(s =~= a + part + b) by {
            assert(s.subrange(i, i + part.len()) == part);
            assert forall|k: int| 0 <= k < s.len() implies s[k] == (a + part + b)[k] by {
                if i <= k < i + part.len() {
                    assert(s.subrange(i, i + part.len())[k - i] == part[k - i]);
                }
            }
        }
    }
    if exists|a: Seq<char>, b: Seq<char>| s == #[trigger] (a + part + b) {
        let (a, b) = choose|a: Seq<char>, b: Seq<char>| s == #[trigger] (a + part + b);
        sums_hold_their_parts(a, part, b);
    }
}

/// A prefix begins a text just when the text goes on from it.
pub proof fn prefixes_are_continued(s: Seq<char>, prefix: Seq<char>)
    ensures
        begins_with(s, prefix) <==> exists|rest: Seq<char>| s == #[trigger] (prefix + rest),
{
    if begins_with(s, prefix) {
        let rest = s.subrange(prefix.len() as int, s.len() as int);
        assert(s =~= prefix + rest);
    }
    if exists|rest: Seq<char>| s == #[trigger] (prefix + rest) {
        let rest = choose|rest: Seq<char>| s == #[trigger] (prefix + rest);
        assert((prefix + rest).subrange(0, prefix.len() as int) =~= prefix);
    }
}

/// A joined text holds every one of its parts.
pub proof fn joined_texts_hold_every_part(parts: Seq<Seq<char>>, sep: Seq<char>, k: int)
    requires
        0 <= k < parts.len(),
    ensures
        holds(joined(parts, sep), parts[k]),
    decreases parts.len(),
{
    let whole = joined(parts, sep);
    if parts.len() == 1 {
        assert(whole.subrange(0, whole.len() as int) =~= parts[0]);
        assert(holds_at(whole, parts[0], 0));
    } else if k < parts.len() - 1 {
        let front = parts.drop_last();
        joined_texts_hold_every_part(front, sep, k);
        sums_hold_their_parts(joined(front, sep), sep, parts.last());
        parts_of_parts_are_held(whole, joined(front, sep), parts[k]);
    } else {
        sums_hold_their_parts(joined(parts.drop_last(), sep), sep, parts.last());
    }
}

/// Parts are joined one by one: nothing for none, the part itself for one, and
/// for more the separator and the part behind what was joined before. So as
/// many characters come out as went in, and the separators.
pub proof fn joining_goes_part_by_part(parts: Seq<Seq<char>>, sep: Seq<char>, part: Seq<char>)
    ensures
        joined(Seq::empty(), sep).len() == 0,
        joined(seq![part], sep) == part,
        parts.len() > 0 ==> joined(parts.push(part), sep) == joined(parts, sep) + sep + part,
{
    assert(parts.push(part).drop_last() =~= parts);
}

/// `s` without leading whitespace: what was taken away is whitespace, and what
/// is left does not begin with any.
pub proof fn front_trimming_takes_whitespace_only(s: Seq<char>)
    ensures
        exists|n: int|
            0 <= n <= s.len() && trim_front(s) == #[trigger] s.subrange(n, s.len() as int)
                && forall|i: int| 0 <= i < n ==> is_space(#[trigger] s[i]),
        trim_front(s).len() > 0 ==> !is_space(trim_front(s)[0]),
    decreases s.len(),
{
    if s.len() > 0 && is_space(s[0]) {
        let t = s.subrange(1, s.len() as int);
        front_trimming_takes_whitespace_only(t);
        let n = choose|n: int|
            0 <= n <= t.len() && trim_front(t) == #[trigger] t.subrange(n, t.len() as int)
                && forall|i: int| 0 <= i < n ==> is_space(#[trigger] t[i]);
        assert(s.subrange(n + 1, s.len() as int) =~= t.subrange(n, t.len() as int));
        assert forall|i: int| 0 <= i < n + 1 implies is_space(#[trigger] s[i]) by {
            if i > 0 {
                assert(is_space(t[i - 1]));
            }
        }
        assert(0 <= n + 1 <= s.len() && trim_front(s) == s.subrange(n + 1, s.len() as int));
    } else {
        assert(s.subrange(0, s.len() as int) =~= s);
    }
}

/// `s` without trailing whitespace: what was taken away is whitespace, and what
/// is left does not end in any.
pub proof fn back_trimming_takes_whitespace_only(s: Seq<char>)
    ensures
        exists|n: int|
            0 <= n <= s.len() && trim_back(s) == #[trigger] s.subrange(0, n) && forall|i: int|
                n <= i < s.len() ==> is_space(#[trigger] s[i]),
        trim_back(s).len() > 0 ==> !is_space(trim_back(s).last()),
    decreases s.len(),
{
    if s.len() > 0 && is_space(s.last()) {
        let t = s.drop_last();
        back_trimming_takes_whitespace_only(t);
        let n = choose|n: int|
            0 <= n <= t.len() && trim_back(t) == #[trigger] t.subrange(0, n) && forall|i: int|
                n <= i < t.len() ==> is_space(#[trigger] t[i]);
        assert(s.subrange(0, n) =~= t.subrange(0, n));
        assert forall|i: int| n <= i < s.len() implies is_space(#[trigger] s[i]) by {
            if i < t.len() {
                assert(is_space(t[i]));
            }
        }
        assert(0 <= n <= s.len() && trim_back(s) == s.subrange(0, n));
    } else {
        assert(s.subrange(0, s.len() as int) =~= s);
    }
}

/// Trimming takes whitespace away at both ends, and nothing else: the text is
/// whitespace, then what is left, then whitespace; and what is left neither
/// begins nor ends with any.
pub proof fn trimming_takes_whitespace_only(s: Seq<char>)
    ensures
        exists|n: int, m: int|
            0 <= n <= m <= s.len() && trimmed(s) == #[trigger] s.subrange(n, m) && (forall|i: int|
                0 <= i < n || m <= i < s.len() ==> is_space(#[trigger] s[i])),
        trimmed(s).len() > 0 ==> !is_space(trimmed(s)[0]) && !is_space(trimmed(s).last()),
{
    front_trimming_takes_whitespace_only(s);
    let t = trim_front(s);
    back_trimming_takes_whitespace_only(t);
    let n = choose|n: int|
        0 <= n <= s.len() && t == #[trigger] s.subrange(n, s.len() as int) && forall|i: int|
            0 <= i < n ==> is_space(#[trigger] s[i]);
    let k = choose|k: int|
        0 <= k <= t.len() && trim_back(t) == #[trigger] t.subrange(0, k) && forall|i: int|
            k <= i < t.len() ==> is_space(#[trigger] t[i]);
    assert(s.subrange(n, n + k) =~= t.subrange(0, k));
    assert forall|i: int| 0 <= i < n || n + k <= i < s.len() implies is_space(#[trigger] s[i]) by {
        if i >= n {
            assert(is_space(t[i - n]));
        }
    }
    assert(0 <= n <= n + k <= s.len() && trimmed(s) == s.subrange(n, n + k));
    if trimmed(s).len() > 0 {
        assert(trimmed(s)[0] == t[0]);
    }
}

/// A text without the run of a character that it ends in: only that character
/// was taken away, only at the end, and none of it is left there.
pub proof fn endings_are_taken_off(s: Seq<char>, c: char)
    ensures
        without_trailing(s, c).len() <= s.len(),
        without_trailing(s, c) == s.subrange(0, without_trailing(s, c).len() as int),
        forall|i: int| without_trailing(s, c).len() <= i < s.len() ==> #[trigger] s[i] == c,
        without_trailing(s, c).len() > 0 ==> without_trailing(s, c).last() != c,
    decreases s.len(),
{
    if s.len() > 0 && s.last() == c {
        let t = s.drop_last();
        endings_are_taken_off(t, c);
        assert(s.subrange(0, without_trailing(t, c).len() as int) =~= without_trailing(t, c));
        assert forall|i: int| without_trailing(s, c).len() <= i < s.len() implies #[trigger] s[i]
            == c by {
            if i < t.len() {
                assert(t[i] == c);
            }
        }
    } else {
        assert(s.subrange(0, s.len() as int) =~= s);
    }
}

/// A setting that counts is what its text says without the whitespace around
/// it; one that says nothing counts as none.
pub proof fn settings_are_trimmed(raw: Seq<char>)
    ensures
        setting(None) is None,
        setting(Some(raw)) is None <==> forall|i: int|
            0 <= i < raw.len() ==> is_space(#[trigger] raw[i]),
        setting(Some(raw)) matches Some(s) ==> s.len() > 0 && holds(raw, s) && !is_space(s[0])
            && !is_space(s.last()),
{
    trimming_takes_whitespace_only(raw);
    let (n, m) = choose|n: int, m: int|
        0 <= n <= m <= raw.len() && trimmed(raw) == #[trigger] raw.subrange(n, m) && (forall|i: int|
            0 <= i < n || m <= i < raw.len() ==> is_space(#[trigger] raw[i]));
    if trimmed(raw).len() > 0 {
        assert(raw[n] == trimmed(raw)[0]);
        assert(holds_at(raw, trimmed(raw), n));
    } else {
        assert forall|i: int| 0 <= i < raw.len() implies is_space(#[trigger] raw[i]) by {}
    }
}

/// A number is read from what it is written as, and no number that is too
/// large is read.
pub proof fn written_numbers_are_read(n: nat, max: nat)
    ensures
        n <= max ==> number_in(decimal(n), max) == Some(n),
        n <= max ==> number_in(seq!['+'] + decimal(n), max) == Some(n),
        n > max ==> number_in(decimal(n), max) is None,
{
    lemma_decimal(n);
    let d = decimal(n);
    let p = seq!['+'] + d;
    assert(is_digit(d[0]));
    assert(p.subrange(1, p.len() as int) =~= d);
}

/// A text that holds anything but digits, beyond one leading plus sign, spells
/// no number; neither does the empty text.
pub proof fn numbers_are_digits_only(s: Seq<char>, max: nat, i: int)
    ensures
        number_in(Seq::empty(), max) is None,
        0 < i < s.len() && !is_digit(s[i]) ==> number_in(s, max) is None,
        s.len() > 0 && !is_digit(s[0]) && s[0] != '+' ==> number_in(s, max) is None,
{
    if 0 < i < s.len() && !is_digit(s[i]) {
        if s[0] == '+' {
            let d = s.subrange(1, s.len() as int);
            assert(!is_digit(d[i - 1]));
        }
    }
}

proof fn lemma_decimal(n: nat)
    ensures
        decimal(n).len() > 0,
        forall|i: int| 0 <= i < decimal(n).len() ==> is_digit(#[trigger] decimal(n)[i]),
        digits_value(decimal(n)) == n,
    decreases n,
{
    let d = digit(n % 10);
    assert(d as u32 == 48 + n % 10);
    if n < 10 {
        assert(decimal(n).drop_last() =~= Seq::empty());
        assert(digits_value(Seq::empty()) == 0);
    } else {
        lemma_decimal(n / 10);
        let front = decimal(n / 10);
        assert(decimal(n).drop_last() =~= front);
        assert forall|i: int| 0 <= i < decimal(n).len() implies is_digit(
            #[trigger] decimal(n)[i],
        ) by {
            if i < front.len() {
                assert(is_digit(front[i]));
            }
        }
    }
}

/// Two numbers are written alike only where they are equal; a negative one is
/// written as its positive counterpart behind a minus sign.
pub proof fn numbers_are_written_apart(a: nat, b: nat)
    ensures
        decimal(a) == decimal(b) ==> a == b,
        decimal_int(a as int) == decimal(a),
        a > 0 ==> decimal_int(-a) == seq!['-'] + decimal(a),
{
    lemma_decimal(a);
    lemma_decimal(b);
}

/// A text that is shortened keeps its beginning; one that is short enough stays
/// as it is, and a longer one shows that it was cut.
pub proof fn shortened_texts_keep_their_beginning(s: Seq<char>, n: int)
    requires
        n >= 0,
    ensures
        s.len() <= n ==> shortened(s, n) == s,
        s.len() > n ==> shortened(s, n).len() == n + 3,
        s.len() > n ==> forall|i: int| 0 <= i < n ==> #[trigger] shortened(s, n)[i] == s[i],
        s.len() > n ==> shortened(s, n)[n] == '.' && shortened(s, n)[n + 1] == '.' && shortened(
            s,
            n,
        )[n + 2] == '.',
{
    reveal_strlit("...");
    assert("..."@.len() == 3 && "..."@[0] == '.' && "..."@[1] == '.' && "..."@[2] == '.');
}

/// The first of a list are its first; a list that is short enough is kept whole.
pub proof fn first_ones_come_first(s: Seq<Seq<char>>, n: int)
    requires
        n >= 0,
    ensures
        first_n(s, n).len() == if s.len() < n {
            s.len() as int
        } else {
            n
        },
        forall|i: int| 0 <= i < first_n(s, n).len() ==> #[trigger] first_n(s, n)[i] == s[i],
{
}

/// Lines with a lead are as many as there were, each behind the lead.
pub proof fn leads_stand_in_front(lines: Seq<Seq<char>>, lead: Seq<char>, i: int)
    requires
        0 <= i < lines.len(),
    ensures
        led(lines, lead).len() == lines.len(),
        led(lines, lead)[i] == lead + lines[i],
        begins_with(led(lines, lead)[i], lead),
        holds(led(lines, lead)[i], lines[i]),
{
    let s = lead + lines[i];
    assert(s.subrange(0, lead.len() as int) =~= lead);
    assert(s.subrange(lead.len() as int, s.len() as int) =~= lines[i]);
    assert(holds_at(s, lines[i], lead.len() as int));
}

/// The order of texts: they are equal up to the first character in which they
/// differ, and the smaller character comes first; a text comes before what goes
/// on from it; and of two different texts one comes before the other.
pub proof fn texts_are_ordered_by_their_first_difference(a: Seq<char>, b: Seq<char>)
    ensures
        text_before(a, b) <==> exists|k: int|
            0 <= k <= a.len() && k < b.len() && a.subrange(0, k) == #[trigger] b.subrange(0, k) && (
            k == a.len() || (k < a.len() && a[k] < b[k])),
        a == b || text_before(a, b) || text_before(b, a),
        !text_before(a, a),
    decreases a.len(),
{
    if a.len() > 0 && b.len() > 0 && a[0] == b[0] {
        let s = a.subrange(1, a.len() as int);
        let t = b.subrange(1, b.len() as int);
        texts_are_ordered_by_their_first_difference(s, t);
        if s == t {
            assert(a =~= b) by {
                assert forall|i: int| 0 <= i < a.len() implies a[i] == b[i] by {
                    if i > 0 {
                        assert(s[i - 1] == t[i - 1]);
                    }
                }
            }
        }
        if text_before(s, t) {
            let k = choose|k: int|
                0 <= k <= s.len() && k < t.len() && s.subrange(0, k) == #[trigger] t.subrange(0, k)
                    && (k == s.len() || (k < s.len() && s[k] < t[k]));
            assert(a.subrange(0, k + 1) =~= b.subrange(0, k + 1)) by {
                assert forall|i: int| 0 <= i < k + 1 implies a[i] == b[i] by {
                    if i > 0 {
                        assert(s.subrange(0, k)[i - 1] == t.subrange(0, k)[i - 1]);
                    }
                }
            }
        }
        if exists|k: int|
            0 <= k <= a.len() && k < b.len() && a.subrange(0, k) == #[trigger] b.subrange(0, k) && (
            k == a.len() || (k < a.len() && a[k] < b[k])) {
            let k = choose|k: int|
                0 <= k <= a.len() && k < b.len() && a.subrange(0, k) == #[trigger] b.subrange(0, k)
                    && (k == a.len() || (k < a.len() && a[k] < b[k]));
            assert(k > 0);
            assert(s.subrange(0, k - 1) =~= t.subrange(0, k - 1)) by {
                assert forall|i: int| 0 <= i < k - 1 implies s[i] == t[i] by {
                    assert(a.subrange(0, k)[i + 1] == b.subrange(0, k)[i + 1]);
                }
            }
        }
        lemma_never_before_itself(a);
    } else if a.len() > 0 && b.len() > 0 {
        if a[0] < b[0] {
            assert(a.subrange(0, 0) =~= b.subrange(0, 0));
        }
        if exists|k: int|
            0 <= k <= a.len() && k < b.len() && a.subrange(0, k) == #[trigger] b.subrange(0, k) && (
            k == a.len() || (k < a.len() && a[k] < b[k])) {
            let k = choose|k: int|
                0 <= k <= a.len() && k < b.len() && a.subrange(0, k) == #[trigger] b.subrange(0, k)
                    && (k == a.len() || (k < a.len() && a[k] < b[k]));
            if k > 0 {
                assert(a.subrange(0, k)[0] == b.subrange(0, k)[0]);
            }
        }
        lemma_never_before_itself(a);
    } else {
        assert(a.subrange(0, 0) =~= b.subrange(0, 0));
        if a.len() == 0 && b.len() == 0 {
            assert(a =~= b);
        }
        lemma_never_before_itself(a);
    }
}

proof fn lemma_never_before_itself(a: Seq<char>)
    ensures
        !text_before(a, a),
    decreases a.len(),
{
    if a.len() > 0 {
        lemma_never_before_itself(a.subrange(1, a.len() as int));
    }
}

/// Of a text in ASCII, the last bytes are its last characters, and all of it
/// where it has no more.
pub proof fn last_bytes_of_plain_texts(s: Seq<char>, n: int)
    requires
        0 <= n,
        forall|i: int| 0 <= i < s.len() ==> (#[trigger] s[i] as u32) < 128,
    ensures
        s.len() <= n ==> crate::text::last_bytes(s, n) == Some(s),
        s.len() > n ==> crate::text::last_bytes(s, n) == Some(
            s.subrange(s.len() - n, s.len() as int),
        ),
    decreases s.len(),
{
    if s.len() == 0 {
        assert(s =~= Seq::empty());
    } else if n == 0 {
        assert(s.subrange(s.len() - n, s.len() as int) =~= Seq::empty());
    } else {
        let t = s.drop_last();
        assert forall|i: int| 0 <= i < t.len() implies (#[trigger] t[i] as u32) < 128 by {
            assert(t[i] == s[i]);
        }
        assert((s[s.len() - 1] as u32) < 128);
        last_bytes_of_plain_texts(t, n - 1);
        assert(t.push(s.last()) =~= s);
        if s.len() > n {
            assert(t.subrange(t.len() - (n - 1), t.len() as int).push(s.last()) =~= s.subrange(
                s.len() - n,
                s.len() as int,
            ));
        }
    }
}

/// Small letters stand for the capitals of ASCII, thirty-two places on; every
/// other character stays, in its place.
pub proof fn capitals_become_small(s: Seq<char>, i: int)
    requires
        0 <= i < s.len(),
    ensures
        crate::text::ascii_lower(s).len() == s.len(),
        65 <= s[i] as int <= 90 ==> crate::text::ascii_lower(s)[i] as int == s[i] as int + 32,
        !(65 <= s[i] as int <= 90) ==> crate::text::ascii_lower(s)[i] == s[i],
{
}

/// In a title, a letter behind a letter is small and any other is a capital; what
/// is no letter stays.
pub proof fn titles_begin_words_with_capitals(s: Seq<char>, c: char)
    ensures
        crate::text::titled(Seq::empty()).len() == 0,
        !crate::text::is_letter(c) ==> crate::text::titled(s.push(c)) == crate::text::titled(s).push(
            c,
        ),
        crate::text::is_letter(c) && s.len() > 0 && crate::text::is_letter(s.last())
            ==> crate::text::titled(s.push(c)) == crate::text::titled(s) + crate::text::lower_of(c),
        crate::text::is_letter(c) && (s.len() == 0 || !crate::text::is_letter(s.last()))
            ==> crate::text::titled(s.push(c)) == crate::text::titled(s) + crate::text::upper_of(c),
{
    assert(s.push(c).drop_last() =~= s);
    if s.len() > 0 {
        assert(s.push(c)[s.len() - 1] == s.last());
    }
}

/// Strings are seen as their texts, one by one.
pub proof fn strings_are_seen_as_their_texts(a: String, v: Seq<String>, i: int)
    ensures
        crate::text::opt(Some(a)) == Some(a@),
        crate::text::opt(None) is None,
        crate::text::texts(v).len() == v.len(),
        0 <= i < v.len() ==> crate::text::texts(v)[i] == v[i]@,
{
}

/// What counts as a space: the tab and the line breaks, the space, and the other
/// spaces of Unicode, with the one that does not break.
pub proof fn spaces_of_unicode(c: char)
    ensures
        is_space(c) <==> {
            let n = c as int;
            ||| 9 <= n <= 13
            ||| n == 32
            ||| n == 133
            ||| n == 160
            ||| n == 5760
            ||| 8192 <= n <= 8202
            ||| n == 8232
            ||| n == 8233
            ||| n == 8239
            ||| n == 8287
            ||| n == 12288
        },
{
}

} // verus!
