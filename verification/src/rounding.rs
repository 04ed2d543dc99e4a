//! Arithmetic that keeps 53 significant binary digits, as double precision
//! does: a result is the nearest number with so many digits, and of two that
//! are equally near the one whose last digit is even. The numbers are not
//! negative, and are counted in a small unit.

use vstd::arithmetic::div_mod::{
    lemma_div_denominator, lemma_fundamental_div_mod, lemma_fundamental_div_mod_converse,
};
use vstd::arithmetic::power2::{lemma2_to64, lemma2_to64_rest, lemma_pow2_adds, lemma_pow2_unfold, pow2};
use vstd::prelude::*;

verus! {

/// The first whole number that has more than 53 binary digits.
pub const DIGITS: u128 = 9007199254740992;

/// How many units make one: two to the power of 118.
pub const ONE: u128 = 332306998946228968225951765070086144;

/// What the last of the 53 digits of `n` units counts for: the least power of
/// two that leaves no more than 53 digits before it.
pub open spec fn grain(n: int) -> int
    decreases n,
{
    if n < DIGITS {
        1
    } else {
        2 * grain(n / 2)
    }
}

/// `k`, or the next number where what is left beyond `k` is more than half of
/// one, or just half and `k` is odd.
pub open spec fn settled(k: int, left_twice: int, whole: int) -> int {
    if left_twice > whole || (left_twice == whole && k % 2 == 1) {
        k + 1
    } else {
        k
    }
}

/// The number with 53 digits that is nearest to `n`.
pub open spec fn nearest(n: int) -> int {
    let g = grain(n);
    settled(n / g, 2 * (n % g), g) * g
}

/// The number with 53 digits that is nearest to the quotient of `p` and `q`.
pub open spec fn share(p: int, q: int) -> int {
    let n = p * ONE / q;
    let g = grain(n);
    let k = n / g;
    settled(k, 2 * (p * ONE - k * g * q), g * q) * g
}

/// The bounds of a grain.
pub proof fn lemma_grain(n: int)
    requires
        n >= 0,
    ensures
        grain(n) >= 1,
        n < grain(n) * DIGITS,
        n >= DIGITS ==> grain(n) * DIGITS <= 2 * n,
        n < DIGITS ==> grain(n) == 1,
    decreases n,
{
    if n >= DIGITS {
        lemma_grain(n / 2);
    }
}

/// Rounding moves a number by no more than its grain.
pub proof fn lemma_nearest_bounds(n: int)
    requires
        n >= 0,
    ensures
        0 <= nearest(n) <= n + grain(n),
        nearest(n) * 4503599627370496 <= n * 4503599627370496 + n + 4503599627370496,
{
    lemma_grain(n);
    let g = grain(n);
    lemma_fundamental_div_mod(n, g);
    let k = n / g;
    assert(0 <= k * g <= n) by (nonlinear_arith)
        requires
            n == g * k + n % g,
            0 <= n % g,
            k == n / g,
            n >= 0,
            g >= 1,
    ;
    assert((k + 1) * g == k * g + g) by (nonlinear_arith);
}

/// How far apart two numbers are.
pub open spec fn gap(a: int, b: int) -> int {
    if a >= b {
        a - b
    } else {
        b - a
    }
}

/// Rounding changes a number by no more than its 2^53th part.
pub proof fn rounding_is_close(n: int)
    requires
        n >= 0,
    ensures
        DIGITS * gap(nearest(n), n) <= n,
{
    lemma_grain(n);
    let g = grain(n);
    let k = n / g;
    let r = n % g;
    lemma_fundamental_div_mod(n, g);
    assert(k * g == n - r) by (nonlinear_arith)
        requires
            n == g * k + r,
    ;
    assert((k + 1) * g == k * g + g) by (nonlinear_arith);
    assert(0 <= r < g) by {
        vstd::arithmetic::div_mod::lemma_mod_bound(n, g);
    }
    assert(2 * gap(nearest(n), n) <= g);
}

/// A share differs from the exact quotient by no more than its 2^53th part.
pub proof fn shares_are_close(p: int, q: int)
    requires
        0 <= p <= q,
        0 < q < 0x1_0000_0000_0000_0000,
    ensures
        share(p, q) >= 0,
        DIGITS * gap(share(p, q) * q, p * ONE) <= p * ONE,
{
    let n = p * ONE / q;
    let rem = (p * ONE) % q;
    lemma_fundamental_div_mod(p * ONE, q);
    vstd::arithmetic::div_mod::lemma_mod_bound(p * ONE, q);
    assert(n >= 0) by (nonlinear_arith)
        requires
            p * ONE == q * n + rem,
            0 <= rem < q,
            p >= 0,
            q > 0,
    ;
    lemma_grain(n);
    let g = grain(n);
    let k = n / g;
    let r = n % g;
    lemma_fundamental_div_mod(n, g);
    vstd::arithmetic::div_mod::lemma_mod_bound(n, g);
    assert(k >= 0) by (nonlinear_arith)
        requires
            n == g * k + r,
            0 <= r < g,
            n >= 0,
    ;
    let left = p * ONE - k * g * q;
    assert(left == r * q + rem) by (nonlinear_arith)
        requires
            left == p * ONE - k * g * q,
            p * ONE == q * n + rem,
            n == g * k + r,
    ;
    assert(0 <= left < g * q) by (nonlinear_arith)
        requires
            left == r * q + rem,
            0 <= r <= g - 1,
            0 <= rem < q,
    ;
    let x = share(p, q);
    assert((k * g) * q == k * g * q) by (nonlinear_arith);
    assert(((k + 1) * g) * q == k * g * q + g * q) by (nonlinear_arith);
    assert((k + 1) * g >= 0 && k * g >= 0) by (nonlinear_arith)
        requires
            k >= 0,
            g >= 1,
    ;
    assert(2 * gap(x * q, p * ONE) <= g * q);
    if p > 0 {
        assert(n >= DIGITS) by (nonlinear_arith)
            requires
                q * n + rem == p * ONE,
                p >= 1,
                rem < q,
                0 < q <= 0xffff_ffff_ffff_ffff,
                ONE == 332306998946228968225951765070086144,
                DIGITS == 9007199254740992,
                n >= 0,
        ;
        assert(DIGITS * (g * q) <= 2 * (q * n)) by (nonlinear_arith)
            requires
                g * DIGITS <= 2 * n,
                q > 0,
        ;
    } else {
        assert(n == 0 && rem == 0) by (nonlinear_arith)
            requires
                q * n + rem == p * ONE,
                p == 0,
                q > 0,
                n >= 0,
                rem >= 0,
        ;
        assert(g == 1 && k == 0);
        assert(left == 0 && g * q > 0);
        assert(x == 0);
        assert(x * q == 0) by (nonlinear_arith)
            requires
                x == 0,
        ;
    }
}

/// A number with no more than 53 digits stays as it is, however small the
/// unit.
pub proof fn lemma_exact(m: int, i: nat)
    requires
        0 <= m < DIGITS,
    ensures
        (m * pow2(i)) % grain(m * pow2(i)) == 0,
        nearest(m * pow2(i)) == m * pow2(i),
    decreases i,
{
    let n = m * pow2(i);
    assert(n >= 0) by (nonlinear_arith)
        requires
            n == m * pow2(i),
            m >= 0,
    ;
    lemma_grain(n);
    let g = grain(n);
    if n >= DIGITS {
        if i == 0 {
            lemma2_to64();
            assert(n == m) by (nonlinear_arith)
                requires
                    n == m * pow2(i),
                    pow2(i) == 1,
            ;
        } else {
            let h = m * pow2((i - 1) as nat);
            lemma_pow2_unfold(i);
            assert(n == 2 * h) by (nonlinear_arith)
                requires
                    n == m * pow2(i),
                    h == m * pow2((i - 1) as nat),
                    pow2(i) == 2 * pow2((i - 1) as nat),
            ;
            lemma_exact(m, (i - 1) as nat);
            lemma_grain(h);
            let f = grain(h);
            assert(n / 2 == h);
            assert(g == 2 * f);
            lemma_fundamental_div_mod(h, f);
            let k = h / f;
            assert(n == g * k) by (nonlinear_arith)
                requires
                    n == 2 * h,
                    h == f * k,
                    g == 2 * f,
            ;
            lemma_fundamental_div_mod_converse(n, g, k, 0);
        }
    }
    lemma_fundamental_div_mod(n, g);
    assert((n / g) * g == n) by (nonlinear_arith)
        requires
            n == g * (n / g) + n % g,
            n % g == 0,
    ;
}

/// `ONE` is a power of two.
pub proof fn lemma_one()
    ensures
        ONE == pow2(118),
{
    lemma2_to64();
    lemma2_to64_rest();
    lemma_pow2_adds(64, 54);
}

/// The first 53 digits of `n`, and its grain.
fn leading(n: u128) -> (r: (u128, u128))
    ensures
        r.1 == grain(n as int),
        r.0 == n as int / grain(n as int),
{
    let mut k: u128 = n;
    let mut g: u128 = 1;
    while k >= DIGITS
        invariant
            g >= 1,
            k == n as int / g as int,
            grain(n as int) == g * grain(k as int),
        decreases k,
    {
        proof {
            lemma_fundamental_div_mod(n as int, g as int);
            assert(2 * g <= n) by (nonlinear_arith)
                requires
                    n == g * k + n as int % g as int,
                    0 <= n as int % g as int,
                    k >= 2,
                    g >= 1,
            ;
            lemma_div_denominator(n as int, g as int, 2);
            let half = grain(k as int / 2);
            assert(g * (2 * half) == (2 * g) * half) by (nonlinear_arith);
        }
        k = k / 2;
        g = g * 2;
    }
    proof {
        assert(grain(k as int) == 1);
    }
    (k, g)
}

/// The number with 53 digits that is nearest to `n`.
pub fn round(n: u128) -> (r: u128)
    requires
        n <= 1000 * ONE,
    ensures
        r == nearest(n as int),
{
    let (k, g): (u128, u128) = leading(n);
    proof {
        lemma_grain(n as int);
        lemma_fundamental_div_mod(n as int, g as int);
        assert(0 <= k * g <= n) by (nonlinear_arith)
            requires
                n == g * k + n as int % g as int,
                0 <= n as int % g as int,
        ;
        assert((k + 1) * g == k * g + g) by (nonlinear_arith);
        assert(k * g == g * k) by (nonlinear_arith);
    }
    let base: u128 = k * g;
    let left: u128 = n - base;
    if 2 * left > g || (2 * left == g && k % 2 == 1) {
        base + g
    } else {
        base
    }
}

/// The quotient of `p` and `q` in units, cut off, and what is left of `p`.
fn divide(p: usize, q: usize) -> (r: (u128, u128))
    requires
        p <= q,
        q > 0,
    ensures
        r.0 == p * ONE / q as int,
        r.0 * q + r.1 == p * ONE,
        r.1 < q,
        r.0 <= ONE,
{
    let d: u128 = q as u128;
    let mut n: u128 = (p / q) as u128;
    let mut left: u128 = (p % q) as u128;
    let mut i: usize = 0;
    proof {
        lemma2_to64();
        lemma_fundamental_div_mod(p as int, q as int);
        assert(n * d + left == p * pow2(0)) by (nonlinear_arith)
            requires
                p == d * n + left,
                pow2(0) == 1,
        ;
        assert(n <= 1) by (nonlinear_arith)
            requires
                p == d * n + left,
                p <= d,
                d > 0,
                left >= 0,
        ;
        lemma_one();
    }
    while i < 118
        invariant
            i <= 118,
            d == q,
            q > 0,
            p <= q,
            left < d,
            n * d + left == p * pow2(i as nat),
            n <= pow2(i as nat),
            pow2(118) == ONE,
            n <= ONE,
        decreases 118 - i,
    {
        proof {
            lemma_pow2_unfold((i + 1) as nat);
            assert(p * pow2((i + 1) as nat) == 2 * (p * pow2(i as nat))) by (nonlinear_arith)
                requires
                    pow2((i + 1) as nat) == 2 * pow2(i as nat),
            ;
            assert((2 * n) * d == 2 * (n * d)) by (nonlinear_arith);
            assert((2 * n + 1) * d == 2 * (n * d) + d) by (nonlinear_arith);
            assert(left < 0x1_0000_0000_0000_0000);
        }
        let ghost before = n;
        left = left * 2;
        n = n * 2;
        if left >= d {
            left = left - d;
            n = n + 1;
        }
        i = i + 1;
        proof {
            assert(n * d + left == p * pow2(i as nat));
            assert(p * pow2(i as nat) <= d * pow2(i as nat)) by (nonlinear_arith)
                requires
                    p <= d,
            ;
            assert(n <= pow2(i as nat)) by (nonlinear_arith)
                requires
                    n * d + left <= d * pow2(i as nat),
                    d > 0,
                    left >= 0,
            ;
            if i < 118 {
                vstd::arithmetic::power2::lemma_pow2_strictly_increases(i as nat, 118);
            }
        }
    }
    proof {
        assert(p * ONE == d * n + left) by (nonlinear_arith)
            requires
                n * d + left == p * ONE,
        ;
        lemma_fundamental_div_mod_converse(p * ONE, d as int, n as int, left as int);
    }
    (n, left)
}

/// The part that `p` is of `q`, to 53 digits.
pub fn part(p: usize, q: usize) -> (r: u128)
    requires
        p <= q,
        q > 0,
    ensures
        r == share(p as int, q as int),
        r <= 2 * ONE,
{
    let (n, rest): (u128, u128) = divide(p, q);
    let (k, g): (u128, u128) = leading(n);
    proof {
        lemma_grain(n as int);
        lemma_fundamental_div_mod(n as int, g as int);
        assert(0 <= k * g <= n) by (nonlinear_arith)
            requires
                n == g * k + n as int % g as int,
                0 <= n as int % g as int,
        ;
        assert((k + 1) * g == k * g + g) by (nonlinear_arith);
        assert(k * g == g * k) by (nonlinear_arith);
    }
    let base: u128 = k * g;
    let left: u128 = n - base;
    let ghost whole = g * q;
    let ghost left_twice = 2 * (p * ONE - k * g * q);
    proof {
        assert(left_twice == 2 * (left * q) + 2 * rest) by (nonlinear_arith)
            requires
                left_twice == 2 * (p * ONE - k * g * q),
                n * q + rest == p * ONE,
                n == k * g + left,
        ;
        if p > 0 {
            assert(n >= DIGITS) by (nonlinear_arith)
                requires
                    n * q + rest == p * ONE,
                    p >= 1,
                    rest < q,
                    q <= 0xffff_ffff_ffff_ffff,
                    ONE == 332306998946228968225951765070086144,
                    DIGITS == 9007199254740992,
                    n >= 0,
            ;
            let half = grain(n as int / 2);
            assert(g == 2 * half);
            if left > half {
                assert(left * q >= half * q + q) by (nonlinear_arith)
                    requires
                        left >= half + 1,
                        q > 0,
                ;
            } else if left < half {
                assert(left * q + q <= half * q) by (nonlinear_arith)
                    requires
                        left + 1 <= half,
                        q > 0,
                ;
            }
            assert(whole == 2 * (half * q)) by (nonlinear_arith)
                requires
                    whole == g * q,
                    g == 2 * half,
            ;
        } else {
            assert(n == 0 && rest == 0) by (nonlinear_arith)
                requires
                    n * q + rest == p * ONE,
                    p == 0,
                    q > 0,
                    n >= 0,
                    rest >= 0,
            ;
            assert(left == 0);
            assert(whole > 0) by (nonlinear_arith)
                requires
                    whole == g * q,
                    g >= 1,
                    q > 0,
            ;
        }
    }
    if 2 * left > g || (2 * left == g && (rest > 0 || k % 2 == 1)) {
        base + g
    } else {
        base
    }
}

} // verus!
