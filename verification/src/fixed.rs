//! Fixed-point building blocks: division rounded to the nearest integer and
//! saturation to the range of `i64`.

use vstd::prelude::*;

verus! {

/// The quotient `n / d` rounded to the nearest integer, ties away from zero.
pub open spec fn round_div(n: int, d: int) -> int
    recommends
        d > 0,
{
    if n >= 0 {
        (2 * n + d) / (2 * d)
    } else {
        -((2 * (-n) + d) / (2 * d))
    }
}

/// `x` brought into the range of `i64`: values beyond it become the nearest bound.
pub open spec fn saturate(x: int) -> int {
    if x < i64::MIN {
        i64::MIN as int
    } else if x > i64::MAX {
        i64::MAX as int
    } else {
        x
    }
}

/// The largest magnitude that `div_round` accepts for its operands.
pub const DIV_ROUND_LIMIT: i128 = 0x1fff_ffff_ffff_ffff_ffff_ffff_ffff_ffff;

/// A rounded quotient is within half a divisor of the exact one.
pub proof fn lemma_round_div_error(n: int, d: int)
    requires
        d > 0,
    ensures
        -d <= 2 * (round_div(n, d) * d - n) <= d,
{
    let m = if n >= 0 { n } else { -n };
    let q = (2 * m + d) / (2 * d);
    assert(2 * m + d == (2 * d) * q + (2 * m + d) % (2 * d) && 0 <= (2 * m + d) % (2 * d) < 2 * d)
        by (nonlinear_arith)
        requires
            d > 0,
            q == (2 * m + d) / (2 * d),
    ;
    assert((2 * d) * q == 2 * (q * d)) by (nonlinear_arith);
    if n < 0 {
        assert((-q) * d == -(q * d)) by (nonlinear_arith);
    }
}

/// The only integer within less than half a divisor of the exact quotient is
/// the rounded quotient.
pub proof fn lemma_round_div_nearest(n: int, d: int, q: int)
    requires
        d > 0,
        -d < 2 * (q * d - n) < d,
    ensures
        round_div(n, d) == q,
{
    lemma_round_div_error(n, d);
    let r = round_div(n, d);
    assert(r == q) by (nonlinear_arith)
        requires
            d > 0,
            -d < 2 * (q * d - n) < d,
            -d <= 2 * (r * d - n) <= d,
    ;
}

/// Rounding is monotonic in the dividend.
pub proof fn lemma_round_div_monotonic(a: int, b: int, d: int)
    requires
        d > 0,
        a <= b,
    ensures
        round_div(a, d) <= round_div(b, d),
{
    lemma_round_div_error(a, d);
    lemma_round_div_error(b, d);
    let p = round_div(a, d);
    let q = round_div(b, d);
    if p > q {
        // p * d is at least d above q * d, and each is within d / 2 of its dividend:
        // that leaves only a == b, where the two quotients are one
        assert(p * d >= q * d + d) by (nonlinear_arith)
            requires
                p >= q + 1,
                d > 0,
        ;
    }
}

/// Divides, rounding to the nearest integer with ties away from zero.
pub fn div_round(n: i128, d: i128) -> (q: i128)
    requires
        0 < d <= DIV_ROUND_LIMIT,
        -DIV_ROUND_LIMIT <= n <= DIV_ROUND_LIMIT,
    ensures
        q == round_div(n as int, d as int),
{
    if n >= 0 {
        (2 * n + d) / (2 * d)
    } else {
        -((2 * (-n) + d) / (2 * d))
    }
}

/// Divides with the quotient rounded towards negative infinity, so that the
/// remainder is never negative.
pub fn div_floor(n: i128, d: i128) -> (qr: (i128, i128))
    requires
        0 < d,
        i128::MIN < n,
    ensures
        qr.0 == n as int / d as int,
        qr.1 == n as int % d as int,
        0 <= qr.1 < d,
{
    if n >= 0 {
        (n / d, n % d)
    } else {
        let m: i128 = -n;
        let q: i128 = m / d;
        let r: i128 = m % d;
        proof {
            lemma_floor_of_negated(m as int, d as int);
        }
        if r == 0 {
            (-q, 0)
        } else {
            (-q - 1, d - r)
        }
    }
}

/// Quotient and remainder of `-m` by those of `m`.
proof fn lemma_floor_of_negated(m: int, d: int)
    requires
        d > 0,
        m >= 0,
    ensures
        m % d == 0 ==> (-m) / d == -(m / d) && (-m) % d == 0,
        m % d != 0 ==> (-m) / d == -(m / d) - 1 && (-m) % d == d - m % d,
{
    let q = m / d;
    let r = m % d;
    assert(m == d * q + r && 0 <= r < d) by (nonlinear_arith)
        requires
            d > 0,
            q == m / d,
            r == m % d,
    ;
    if r == 0 {
        assert(-m == d * (-q) + 0) by (nonlinear_arith)
            requires
                m == d * q + r,
                r == 0,
        ;
        vstd::arithmetic::div_mod::lemma_fundamental_div_mod_converse(-m, d, -q, 0);
    } else {
        assert(-m == d * (-q - 1) + (d - r)) by (nonlinear_arith)
            requires
                m == d * q + r,
        ;
        vstd::arithmetic::div_mod::lemma_fundamental_div_mod_converse(-m, d, -q - 1, d - r);
    }
}

/// Narrows to `i64`, saturating at the bounds.
pub fn saturate_i64(x: i128) -> (r: i64)
    ensures
        r == saturate(x as int),
{
    if x < i64::MIN as i128 {
        i64::MIN
    } else if x > i64::MAX as i128 {
        i64::MAX
    } else {
        x as i64
    }
}

} // verus!
