//! Text primitives: every function works on the character sequence of a
//! string and states its result over that sequence.

use vstd::prelude::*;
use vstd::std_specs::iter::IteratorSpec;
use vstd::string::*;

verus! {

broadcast use {next_postcondition, group_string_axioms};

/// `String::push` puts one character behind the text.
pub assume_specification[ String::push ](s: &mut String, c: char)
    ensures
        final(s)@ == old(s)@.push(c),
;

/// Unicode's `White_Space` property.
pub open spec fn is_space(c: char) -> bool {
    ||| '\u{9}' <= c <= '\u{d}'
    ||| c == ' '
    ||| c == '\u{85}'
    ||| c == '\u{a0}'
    ||| c == '\u{1680}'
    ||| '\u{2000}' <= c <= '\u{200a}'
    ||| c == '\u{2028}'
    ||| c == '\u{2029}'
    ||| c == '\u{202f}'
    ||| c == '\u{205f}'
    ||| c == '\u{3000}'
}

/// `char::is_whitespace` tells whether a character has the `White_Space`
/// property.
pub assume_specification[ char::is_whitespace ](c: char) -> (r: bool)
    ensures
        r == is_space(c),
;

/// What `str::to_lowercase` makes of a text: its Unicode lowercase mapping.
pub uninterp spec fn lowercase(s: Seq<char>) -> Seq<char>;

/// `str::to_lowercase`.
pub assume_specification[ str::to_lowercase ](s: &str) -> (r: String)
    ensures
        r@ == lowercase(s@),
;

/// Whether `char::is_alphabetic` holds: Unicode's `Alphabetic` property.
pub uninterp spec fn is_letter(c: char) -> bool;

/// `char::is_alphabetic`.
pub assume_specification[ char::is_alphabetic ](c: char) -> (r: bool)
    ensures
        r == is_letter(c),
;

/// The characters that `char::to_uppercase` yields.
pub uninterp spec fn upper_of(c: char) -> Seq<char>;

/// The characters that `char::to_lowercase` yields.
pub uninterp spec fn lower_of(c: char) -> Seq<char>;

/// `char::to_uppercase`, as a text.
#[verifier::external_body]
fn to_upper(c: char) -> (r: String)
    ensures
        r@ == upper_of(c),
{
    c.to_uppercase().to_string()
}

/// `char::to_lowercase`, as a text.
#[verifier::external_body]
fn to_lower(c: char) -> (r: String)
    ensures
        r@ == lower_of(c),
{
    c.to_lowercase().to_string()
}

/// The text that `{:?}` writes of a text: quoted, with escapes.
pub uninterp spec fn quoted(s: Seq<char>) -> Seq<char>;

/// `format!` with `{:?}` on a text.
#[verifier::external_body]
pub(crate) fn quote(s: &str) -> (r: String)
    ensures
        r@ == quoted(s@),
{
    format!("{s:?}")
}

// ---------------------------------------------------------------------
// Characters of a string
// ---------------------------------------------------------------------

/// The characters of `s`.
pub fn chars_of(s: &str) -> (r: Vec<char>)
    ensures
        r@ == s@,
{
    let mut r: Vec<char> = Vec::new();
    let mut it = s.chars();
    proof {
        assert(r@ + it.remaining() =~= s@);
    }
    loop
        invariant
            r@ + it.remaining() == s@,
            it.decrease() is Some,
        ensures
            r@ == s@,
        decreases it.decrease()->0,
    {
        let ghost before = it.remaining();
        match it.next() {
            Some(c) => {
                r.push(c);
                proof {
                    assert(before =~= seq![c] + it.remaining());
                    assert(r@ + it.remaining() =~= s@);
                }
            },
            None => {
                proof {
                    assert(r@ =~= s@);
                }
                return r;
            },
        }
    }
}

/// The text made of `v[from..to]`.
pub fn text_of(v: &Vec<char>, from: usize, to: usize) -> (r: String)
    requires
        from <= to <= v@.len(),
    ensures
        r@ == v@.subrange(from as int, to as int),
{
    let mut r: String = String::new();
    let mut i: usize = from;
    while i < to
        invariant
            from <= i <= to <= v@.len(),
            r@ == v@.subrange(from as int, i as int),
        decreases to - i,
    {
        r.push(v[i]);
        i = i + 1;
        proof {
            assert(r@ =~= v@.subrange(from as int, i as int));
        }
    }
    r
}

/// Equality of two texts.
pub fn same(a: &str, b: &str) -> (r: bool)
    ensures
        r == (a@ == b@),
{
    let x: String = a.to_owned();
    let y: String = b.to_owned();
    x == y
}

/// A copy of `s`.
pub fn own(s: &str) -> (r: String)
    ensures
        r@ == s@,
{
    s.to_owned()
}

/// The view of an optional text.
pub open spec fn opt(s: Option<String>) -> Option<Seq<char>> {
    match s {
        Some(x) => Some(x@),
        None => None,
    }
}

/// The view of an optional borrowed text.
pub open spec fn opt_str(s: Option<&str>) -> Option<Seq<char>> {
    match s {
        Some(x) => Some(x@),
        None => None,
    }
}

/// A copy of an optional text.
pub fn own_opt(s: Option<&str>) -> (r: Option<String>)
    ensures
        opt(r) == opt_str(s),
{
    match s {
        Some(x) => Some(own(x)),
        None => None,
    }
}

/// A copy of an optional owned text.
pub fn copy_opt(s: &Option<String>) -> (r: Option<String>)
    ensures
        opt(r) == opt(*s),
{
    match s {
        Some(x) => Some(own(x.as_str())),
        None => None,
    }
}

/// An optional text, borrowed.
pub fn borrow_opt<'a>(s: &'a Option<String>) -> (r: Option<&'a str>)
    ensures
        opt_str(r) == opt(*s),
{
    match s {
        Some(x) => Some(x.as_str()),
        None => None,
    }
}

/// The views of a list of texts.
pub open spec fn texts(v: Seq<String>) -> Seq<Seq<char>> {
    v.map_values(|s: String| s@)
}

/// Puts a line behind the others.
pub fn add_line(lines: &mut Vec<String>, s: String)
    ensures
        texts(final(lines)@) == texts(old(lines)@).push(s@),
{
    let ghost before = lines@;
    lines.push(s);
    proof {
        assert(texts(lines@) =~= texts(before).push(s@));
    }
}

/// Puts lines behind the others, each with `lead` in front.
pub fn add_lines(lines: &mut Vec<String>, lead: &str, more: &Vec<String>)
    ensures
        texts(final(lines)@) == texts(old(lines)@) + led(texts(more@), lead@),
{
    let ghost before = texts(lines@);
    let mut i: usize = 0;
    proof {
        assert(led(texts(more@).subrange(0, 0), lead@) =~= Seq::empty());
        assert(texts(lines@) =~= before + led(texts(more@).subrange(0, 0), lead@));
    }
    while i < more.len()
        invariant
            i <= more@.len(),
            texts(lines@) == before + led(texts(more@).subrange(0, i as int), lead@),
        decreases more@.len() - i,
    {
        add_line(lines, cat2(lead, more[i].as_str()));
        i = i + 1;
        proof {
            assert(texts(lines@) =~= before + led(texts(more@).subrange(0, i as int), lead@));
        }
    }
    proof {
        assert(texts(more@).subrange(0, more@.len() as int) =~= texts(more@));
    }
}

/// Lines with `lead` in front of each.
pub open spec fn led(lines: Seq<Seq<char>>, lead: Seq<char>) -> Seq<Seq<char>> {
    lines.map_values(|s: Seq<char>| lead + s)
}

/// The first `n` of a list.
pub open spec fn first_n<A>(s: Seq<A>, n: int) -> Seq<A> {
    if s.len() <= n {
        s
    } else {
        s.subrange(0, n)
    }
}

/// Keeps the first `n` lines.
pub fn keep_lines(lines: &mut Vec<String>, n: usize)
    ensures
        texts(final(lines)@) == first_n(texts(old(lines)@), n as int),
{
    let ghost before = lines@;
    lines.truncate(n);
    proof {
        assert(texts(lines@) =~= first_n(texts(before), n as int));
    }
}

/// An empty list of lines.
pub fn no_lines() -> (r: Vec<String>)
    ensures
        texts(r@) == Seq::<Seq<char>>::empty(),
{
    let r: Vec<String> = Vec::new();
    proof {
        assert(texts(r@) =~= Seq::empty());
    }
    r
}

// ---------------------------------------------------------------------
// Concatenation
// ---------------------------------------------------------------------

pub fn cat2(a: &str, b: &str) -> (r: String)
    ensures
        r@ == a@ + b@,
{
    let mut s: String = a.to_owned();
    s.append(b);
    s
}

pub fn cat3(a: &str, b: &str, c: &str) -> (r: String)
    ensures
        r@ == a@ + b@ + c@,
{
    let mut s: String = a.to_owned();
    s.append(b);
    s.append(c);
    s
}

pub fn cat4(a: &str, b: &str, c: &str, d: &str) -> (r: String)
    ensures
        r@ == a@ + b@ + c@ + d@,
{
    let mut s: String = cat3(a, b, c);
    s.append(d);
    s
}

pub fn cat5(a: &str, b: &str, c: &str, d: &str, e: &str) -> (r: String)
    ensures
        r@ == a@ + b@ + c@ + d@ + e@,
{
    let mut s: String = cat4(a, b, c, d);
    s.append(e);
    s
}

pub fn cat6(a: &str, b: &str, c: &str, d: &str, e: &str, f: &str) -> (r: String)
    ensures
        r@ == a@ + b@ + c@ + d@ + e@ + f@,
{
    let mut s: String = cat5(a, b, c, d, e);
    s.append(f);
    s
}

pub fn cat7(a: &str, b: &str, c: &str, d: &str, e: &str, f: &str, g: &str) -> (r: String)
    ensures
        r@ == a@ + b@ + c@ + d@ + e@ + f@ + g@,
{
    let mut s: String = cat6(a, b, c, d, e, f);
    s.append(g);
    s
}

/// The texts of `parts` one behind the other, with `sep` between them.
pub open spec fn joined(parts: Seq<Seq<char>>, sep: Seq<char>) -> Seq<char>
    decreases parts.len(),
{
    if parts.len() == 0 {
        Seq::empty()
    } else if parts.len() == 1 {
        parts[0]
    } else {
        joined(parts.drop_last(), sep) + sep + parts.last()
    }
}

/// Joins `parts` with `sep`.
pub fn join(parts: &Vec<String>, sep: &str) -> (r: String)
    ensures
        r@ == joined(texts(parts@), sep@),
{
    let mut r: String = String::new();
    let mut i: usize = 0;
    proof {
        assert(texts(parts@).subrange(0, 0) =~= Seq::<Seq<char>>::empty());
        assert(r@ =~= joined(texts(parts@).subrange(0, 0), sep@));
    }
    while i < parts.len()
        invariant
            i <= parts@.len(),
            r@ == joined(texts(parts@).subrange(0, i as int), sep@),
        decreases parts@.len() - i,
    {
        if i > 0 {
            r.append(sep);
        }
        r.append(parts[i].as_str());
        proof {
            let now = texts(parts@).subrange(0, i + 1);
            assert(now.drop_last() =~= texts(parts@).subrange(0, i as int));
            assert(now.last() == parts@[i as int]@);
            if i == 0 {
                assert(r@ =~= now[0]);
            }
        }
        i = i + 1;
    }
    proof {
        assert(texts(parts@).subrange(0, parts@.len() as int) =~= texts(parts@));
    }
    r
}

// ---------------------------------------------------------------------
// Trimming
// ---------------------------------------------------------------------

/// `s` without its leading whitespace.
pub open spec fn trim_front(s: Seq<char>) -> Seq<char>
    decreases s.len(),
{
    if s.len() > 0 && is_space(s[0]) {
        trim_front(s.subrange(1, s.len() as int))
    } else {
        s
    }
}

/// `s` without its trailing whitespace.
pub open spec fn trim_back(s: Seq<char>) -> Seq<char>
    decreases s.len(),
{
    if s.len() > 0 && is_space(s.last()) {
        trim_back(s.drop_last())
    } else {
        s
    }
}

/// `s` without leading and trailing whitespace.
pub open spec fn trimmed(s: Seq<char>) -> Seq<char> {
    trim_back(trim_front(s))
}

/// `s` without the run of `c` that it ends in.
pub open spec fn without_trailing(s: Seq<char>, c: char) -> Seq<char>
    decreases s.len(),
{
    if s.len() > 0 && s.last() == c {
        without_trailing(s.drop_last(), c)
    } else {
        s
    }
}

/// Trims whitespace at both ends.
pub fn trim(s: &str) -> (r: String)
    ensures
        r@ == trimmed(s@),
{
    let v: Vec<char> = chars_of(s);
    let mut a: usize = 0;
    proof {
        assert(v@.subrange(0, v@.len() as int) =~= v@);
    }
    while a < v.len() && v[a].is_whitespace()
        invariant
            a <= v@.len(),
            trim_front(v@) == trim_front(v@.subrange(a as int, v@.len() as int)),
        decreases v@.len() - a,
    {
        proof {
            let rest = v@.subrange(a as int, v@.len() as int);
            assert(rest.subrange(1, rest.len() as int) =~= v@.subrange(a + 1, v@.len() as int));
        }
        a = a + 1;
    }
    let mut b: usize = v.len();
    let ghost front = v@.subrange(a as int, v@.len() as int);
    proof {
        assert(trim_front(v@) == front);
    }
    while b > a && v[b - 1].is_whitespace()
        invariant
            a <= b <= v@.len(),
            trim_back(front) == trim_back(v@.subrange(a as int, b as int)),
        decreases b,
    {
        proof {
            let rest = v@.subrange(a as int, b as int);
            assert(rest.drop_last() =~= v@.subrange(a as int, b - 1));
        }
        b = b - 1;
    }
    text_of(&v, a, b)
}

/// Removes the run of `c` at the end.
pub fn trim_end_of(s: &str, c: char) -> (r: String)
    ensures
        r@ == without_trailing(s@, c),
{
    let v: Vec<char> = chars_of(s);
    let mut b: usize = v.len();
    proof {
        assert(v@.subrange(0, v@.len() as int) =~= v@);
    }
    while b > 0 && v[b - 1] == c
        invariant
            b <= v@.len(),
            without_trailing(v@, c) == without_trailing(v@.subrange(0, b as int), c),
        decreases b,
    {
        proof {
            assert(v@.subrange(0, b as int).drop_last() =~= v@.subrange(0, b - 1));
        }
        b = b - 1;
    }
    text_of(&v, 0, b)
}

// ---------------------------------------------------------------------
// Searching
// ---------------------------------------------------------------------

/// Whether `prefix` begins `s`.
pub open spec fn begins_with(s: Seq<char>, prefix: Seq<char>) -> bool {
    prefix.len() <= s.len() && s.subrange(0, prefix.len() as int) == prefix
}

/// Whether `s` begins with `prefix`.
pub fn starts_with(s: &str, prefix: &str) -> (r: bool)
    ensures
        r == begins_with(s@, prefix@),
{
    let v: Vec<char> = chars_of(s);
    let p: Vec<char> = chars_of(prefix);
    if p.len() > v.len() {
        return false;
    }
    let mut i: usize = 0;
    while i < p.len()
        invariant
            v@ == s@,
            p@ == prefix@,
            i <= p@.len() <= v@.len(),
            forall|j: int| 0 <= j < i ==> v@[j] == p@[j],
        decreases p@.len() - i,
    {
        if v[i] != p[i] {
            proof {
                assert(v@.subrange(0, p@.len() as int)[i as int] == v@[i as int]);
            }
            return false;
        }
        i = i + 1;
    }
    proof {
        assert(v@.subrange(0, p@.len() as int) =~= p@);
    }
    true
}

/// Whether `part` stands somewhere in `s`.
pub open spec fn holds(s: Seq<char>, part: Seq<char>) -> bool {
    exists|i: int| #[trigger] holds_at(s, part, i)
}

/// Whether `part` stands in `s` at position `i`.
pub open spec fn holds_at(s: Seq<char>, part: Seq<char>, i: int) -> bool {
    0 <= i && i + part.len() <= s.len() && s.subrange(i, i + part.len()) == part
}

/// Whether `s` holds `part`.
pub fn contains(s: &str, part: &str) -> (r: bool)
    ensures
        r == holds(s@, part@),
{
    let v: Vec<char> = chars_of(s);
    let p: Vec<char> = chars_of(part);
    if p.len() > v.len() {
        return false;
    }
    let n: usize = v.len();
    let mut i: usize = 0;
    while i <= n - p.len()
        invariant
            v@ == s@,
            p@ == part@,
            n == v@.len(),
            p@.len() <= v@.len(),
            i <= v@.len() - p@.len() + 1,
            forall|k: int| 0 <= k < i ==> !holds_at(v@, p@, k),
        decreases v@.len() - p@.len() + 1 - i,
    {
        let mut j: usize = 0;
        while j < p.len() && v[i + j] == p[j]
            invariant
                j <= p@.len(),
                n == v@.len(),
                i + p@.len() <= v@.len(),
                forall|k: int| 0 <= k < j ==> v@[i + k] == p@[k],
            decreases p@.len() - j,
        {
            j = j + 1;
        }
        if j == p.len() {
            proof {
                assert(v@.subrange(i as int, i + p@.len()) =~= p@);
                assert(holds_at(v@, p@, i as int));
            }
            return true;
        }
        proof {
            assert(v@.subrange(i as int, i + p@.len())[j as int] == v@[i + j]);
        }
        i = i + 1;
    }
    false
}

/// Whether `s` holds the character `c`.
pub fn has_char(s: &str, c: char) -> (r: bool)
    ensures
        r == s@.contains(c),
{
    let v: Vec<char> = chars_of(s);
    let mut i: usize = 0;
    while i < v.len()
        invariant
            v@ == s@,
            i <= v@.len(),
            forall|j: int| 0 <= j < i ==> v@[j] != c,
        decreases v@.len() - i,
    {
        if v[i] == c {
            return true;
        }
        i = i + 1;
    }
    false
}

/// Whether the list holds the text `s`.
pub fn list_has(v: &Vec<String>, s: &str) -> (r: bool)
    ensures
        r == texts(v@).contains(s@),
{
    let mut i: usize = 0;
    while i < v.len()
        invariant
            i <= v@.len(),
            forall|j: int| 0 <= j < i ==> v@[j]@ != s@,
        decreases v@.len() - i,
    {
        if same(v[i].as_str(), s) {
            proof {
                assert(texts(v@)[i as int] == s@);
            }
            return true;
        }
        i = i + 1;
    }
    false
}

/// The first `n` characters of `s`, and `...` behind them where more follow.
pub open spec fn shortened(s: Seq<char>, n: int) -> Seq<char> {
    if s.len() <= n {
        s
    } else {
        s.subrange(0, n) + "..."@
    }
}

/// Cuts `s` behind `n` characters.
pub fn shorten(s: &str, n: usize) -> (r: String)
    ensures
        r@ == shortened(s@, n as int),
{
    let v: Vec<char> = chars_of(s);
    if v.len() <= n {
        own(s)
    } else {
        let head: String = text_of(&v, 0, n);
        cat2(head.as_str(), "...")
    }
}

/// How many bytes a character takes in UTF-8.
pub open spec fn utf8_width(c: char) -> int {
    if (c as u32) < 0x80 {
        1
    } else if (c as u32) < 0x800 {
        2
    } else if (c as u32) < 0x10000 {
        3
    } else {
        4
    }
}

/// How many characters `s` has.
pub fn length(s: &str) -> (r: usize)
    ensures
        r == s@.len(),
{
    let v: Vec<char> = chars_of(s);
    v.len()
}

/// The text that the last `n` bytes of `s` spell; the whole text where it has
/// no more bytes, and none where the cut would fall inside a character.
pub open spec fn last_bytes(s: Seq<char>, n: int) -> Option<Seq<char>>
    decreases s.len(),
{
    if n < 0 {
        None
    } else if n == 0 || s.len() == 0 {
        Some(Seq::empty())
    } else {
        match last_bytes(s.drop_last(), n - utf8_width(s.last())) {
            Some(t) => Some(t.push(s.last())),
            None => None,
        }
    }
}

/// The text that the last `n` bytes of `s` spell.
pub fn suffix(s: &str, n: u8) -> (r: Option<String>)
    ensures
        opt(r) == last_bytes(s@, n as int),
{
    let v: Vec<char> = chars_of(s);
    let mut at: usize = v.len();
    let mut left: u8 = n;
    proof {
        assert(v@.subrange(0, v@.len() as int) =~= v@);
        assert(last_bytes(v@, n as int) == extended(last_bytes(v@, n as int), Seq::empty())) by {
            match last_bytes(v@, n as int) {
                Some(t) => assert(t + Seq::<char>::empty() =~= t),
                None => {},
            }
        }
        assert(v@.subrange(v@.len() as int, v@.len() as int) =~= Seq::<char>::empty());
    }
    while at > 0 && left > 0
        invariant
            v@ == s@,
            at <= v@.len(),
            last_bytes(v@, n as int) == extended(
                last_bytes(v@.subrange(0, at as int), left as int),
                v@.subrange(at as int, v@.len() as int),
            ),
        decreases at,
    {
        let c: char = v[at - 1];
        let code: u32 = c as u32;
        let width: u8 = if code < 0x80 {
            1
        } else if code < 0x800 {
            2
        } else if code < 0x10000 {
            3
        } else {
            4
        };
        proof {
            let whole = v@.subrange(0, at as int);
            assert(whole.drop_last() =~= v@.subrange(0, at - 1));
            let rest = last_bytes(v@.subrange(0, at - 1), left - width);
            let tail = v@.subrange(at as int, v@.len() as int);
            let longer = v@.subrange(at - 1, v@.len() as int);
            match rest {
                Some(t) => assert(t.push(c) + tail =~= t + longer),
                None => {},
            }
        }
        if width > left {
            return None;
        }
        left = left - width;
        at = at - 1;
    }
    proof {
        assert(Seq::<char>::empty() + v@.subrange(at as int, v@.len() as int) =~= v@.subrange(
            at as int,
            v@.len() as int,
        ));
    }
    Some(text_of(&v, at, v.len()))
}

/// `tail` put behind an optional text.
pub open spec fn extended(s: Option<Seq<char>>, tail: Seq<char>) -> Option<Seq<char>> {
    match s {
        Some(t) => Some(t + tail),
        None => None,
    }
}

// ---------------------------------------------------------------------
// Order of texts
// ---------------------------------------------------------------------

/// The order of texts: by the first character in which they differ; a text
/// comes before its continuations.
pub open spec fn text_before(a: Seq<char>, b: Seq<char>) -> bool
    decreases a.len(),
{
    if b.len() == 0 {
        false
    } else if a.len() == 0 {
        true
    } else if a[0] != b[0] {
        a[0] < b[0]
    } else {
        text_before(a.subrange(1, a.len() as int), b.subrange(1, b.len() as int))
    }
}

/// Of two texts at most one comes before the other.
pub proof fn text_order_is_strict(a: Seq<char>, b: Seq<char>)
    ensures
        !(text_before(a, b) && text_before(b, a)),
    decreases a.len(),
{
    if a.len() > 0 && b.len() > 0 && a[0] == b[0] {
        text_order_is_strict(a.subrange(1, a.len() as int), b.subrange(1, b.len() as int));
    }
}

/// Whether `a` comes before `b`.
pub fn comes_before(a: &str, b: &str) -> (r: bool)
    ensures
        r == text_before(a@, b@),
{
    let x: Vec<char> = chars_of(a);
    let y: Vec<char> = chars_of(b);
    let mut i: usize = 0;
    proof {
        assert(x@.subrange(0, x@.len() as int) =~= x@);
        assert(y@.subrange(0, y@.len() as int) =~= y@);
    }
    while i < x.len() && i < y.len() && x[i] == y[i]
        invariant
            i <= x@.len(),
            i <= y@.len(),
            text_before(x@, y@) == text_before(
                x@.subrange(i as int, x@.len() as int),
                y@.subrange(i as int, y@.len() as int),
            ),
        decreases x@.len() - i,
    {
        proof {
            let p = x@.subrange(i as int, x@.len() as int);
            let q = y@.subrange(i as int, y@.len() as int);
            assert(p.subrange(1, p.len() as int) =~= x@.subrange(i + 1, x@.len() as int));
            assert(q.subrange(1, q.len() as int) =~= y@.subrange(i + 1, y@.len() as int));
        }
        i = i + 1;
    }
    if i == y.len() {
        false
    } else if i == x.len() {
        true
    } else {
        x[i] < y[i]
    }
}

// ---------------------------------------------------------------------
// Letter case (ASCII)
// ---------------------------------------------------------------------

/// The lowercase form of an ASCII letter; any other character as it is.
pub open spec fn ascii_lower_char(c: char) -> char {
    if 'A' <= c <= 'Z' {
        ((c as u32 + 32) as u8) as char
    } else {
        c
    }
}

/// `s` with its ASCII letters in lowercase.
pub open spec fn ascii_lower(s: Seq<char>) -> Seq<char> {
    s.map_values(|c: char| ascii_lower_char(c))
}

/// `s` with its ASCII letters in lowercase.
pub fn to_ascii_lower(s: &str) -> (r: String)
    ensures
        r@ == ascii_lower(s@),
{
    let v: Vec<char> = chars_of(s);
    let mut r: String = String::new();
    let mut i: usize = 0;
    while i < v.len()
        invariant
            i <= v@.len(),
            r@ =~= ascii_lower(v@.subrange(0, i as int)),
        decreases v@.len() - i,
    {
        let c: char = v[i];
        if 'A' <= c && c <= 'Z' {
            r.push((((c as u32) + 32) as u8) as char);
        } else {
            r.push(c);
        }
        i = i + 1;
        proof {
            assert(v@.subrange(0, i as int).drop_last() =~= v@.subrange(0, i - 1));
            assert(r@ =~= ascii_lower(v@.subrange(0, i as int)));
        }
    }
    proof {
        assert(v@.subrange(0, v@.len() as int) =~= v@);
    }
    r
}

/// `s` with every run of letters capitalised: its first letter in uppercase,
/// the others in lowercase.
pub open spec fn titled(s: Seq<char>) -> Seq<char>
    decreases s.len(),
{
    if s.len() == 0 {
        Seq::empty()
    } else {
        let front = titled(s.drop_last());
        if !is_letter(s.last()) {
            front.push(s.last())
        } else if s.len() >= 2 && is_letter(s[s.len() - 2]) {
            front + lower_of(s.last())
        } else {
            front + upper_of(s.last())
        }
    }
}

/// `s` with every run of letters capitalised.
pub fn title_case(s: &str) -> (r: String)
    ensures
        r@ == titled(s@),
{
    let v: Vec<char> = chars_of(s);
    let mut r: String = String::new();
    let mut inside: bool = false;
    let mut i: usize = 0;
    proof {
        assert(r@ =~= titled(v@.subrange(0, 0)));
    }
    while i < v.len()
        invariant
            i <= v@.len(),
            inside == (i > 0 && is_letter(v@[i - 1])),
            r@ == titled(v@.subrange(0, i as int)),
        decreases v@.len() - i,
    {
        let c: char = v[i];
        proof {
            let now = v@.subrange(0, i + 1);
            assert(now.drop_last() =~= v@.subrange(0, i as int));
            assert(now.last() == c);
            assert(i > 0 ==> now[now.len() - 2] == v@[i - 1]);
        }
        if c.is_alphabetic() {
            if inside {
                let t: String = to_lower(c);
                r.append(t.as_str());
            } else {
                let t: String = to_upper(c);
                r.append(t.as_str());
            }
            inside = true;
        } else {
            r.push(c);
            inside = false;
        }
        i = i + 1;
    }
    proof {
        assert(v@.subrange(0, v@.len() as int) =~= v@);
    }
    r
}

// ---------------------------------------------------------------------
// Numbers
// ---------------------------------------------------------------------

/// The character of a decimal digit.
pub open spec fn digit(d: nat) -> char
    recommends
        d < 10,
{
    ((48 + d) as u8) as char
}

/// A natural number in decimal notation, without leading zeros.
pub open spec fn decimal(n: nat) -> Seq<char>
    decreases n,
{
    if n < 10 {
        seq![digit(n)]
    } else {
        decimal(n / 10).push(digit(n % 10))
    }
}

/// An integer in decimal notation.
pub open spec fn decimal_int(n: int) -> Seq<char> {
    if n < 0 {
        seq!['-'] + decimal((-n) as nat)
    } else {
        decimal(n as nat)
    }
}

/// Decimal notation of a natural number.
pub fn show_u64(n: u64) -> (r: String)
    ensures
        r@ == decimal(n as nat),
    decreases n,
{
    if n < 10 {
        let mut s: String = String::new();
        s.push((48 + n as u8) as char);
        proof {
            assert(s@ =~= decimal(n as nat));
        }
        s
    } else {
        let mut s: String = show_u64(n / 10);
        s.push((48 + (n % 10) as u8) as char);
        s
    }
}

/// Decimal notation of a length.
pub fn show_usize(n: usize) -> (r: String)
    ensures
        r@ == decimal(n as nat),
{
    show_u64(n as u64)
}

/// Decimal notation of an integer.
pub fn show_i64(n: i64) -> (r: String)
    ensures
        r@ == decimal_int(n as int),
{
    if n < 0 {
        let mut s: String = String::new();
        s.push('-');
        let magnitude: u64 = (-(n as i128)) as u64;
        let d: String = show_u64(magnitude);
        s.append(d.as_str());
        proof {
            assert(s@ =~= decimal_int(n as int));
        }
        s
    } else {
        show_u64(n as u64)
    }
}

} // verus!
