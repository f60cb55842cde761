//! Sine and cosine on fixed-point numbers.
//!
//! The argument is an angle in degrees, so that it is brought into the first
//! quadrant exactly. There the value is the Maclaurin series of the function,
//! cut after `TERMS` terms and evaluated in nested form on numbers scaled by
//! `UNIT`, each quotient rounded down. Near 45° or below the series is taken at
//! the angle itself, above that at its complement, so that the series argument
//! never exceeds π/4.

use vstd::prelude::*;
use crate::angle::Degrees;
use crate::fixed::div_floor;

verus! {

/// The fixed-point number one: results count units of 10^-18.
pub const UNIT: i64 = 1_000_000_000_000_000_000;

/// π scaled by `UNIT`, rounded down.
pub const PI_SCALED: i128 = 3_141_592_653_589_793_238;

/// 360° in micro-arcseconds.
pub const FULL_TURN: i64 = 1_296_000_000_000;

/// 180° in micro-arcseconds.
pub const HALF_TURN: i64 = 648_000_000_000;

/// 90° in micro-arcseconds.
pub const QUARTER_TURN: i64 = 324_000_000_000;

/// 45° in micro-arcseconds.
pub const EIGHTH_TURN: i64 = 162_000_000_000;

/// Number of series terms after the leading one.
pub const TERMS: u32 = 8;

/// The nested series `1 - x/(k(k+1)) (1 - x/((k+2)(k+3)) (1 - ...))` with
/// `terms` factors, on numbers scaled by `UNIT`; `x2` is the square of the
/// argument. With `k = 1` it is the cosine, with `k = 2` the sine over its
/// argument.
pub open spec fn series(x2: int, k: int, terms: nat) -> int
    decreases terms,
{
    if terms == 0 {
        UNIT as int
    } else {
        UNIT - (x2 * series(x2, k + 2, (terms - 1) as nat) / (UNIT as int)) / (k * (k + 1))
    }
}

/// The angle of `value` micro-arcseconds in radians scaled by `UNIT`, rounded
/// down; meant for angles up to 45°.
pub open spec fn scaled_radians(value: int) -> int {
    value * PI_SCALED / (HALF_TURN as int)
}

/// The cosine series at an argument in radians scaled by `UNIT`.
pub open spec fn cosine_series(t: int) -> int {
    series(t * t / (UNIT as int), 1, TERMS as nat)
}

/// The sine series at an argument in radians scaled by `UNIT`.
pub open spec fn sine_series(t: int) -> int {
    t * series(t * t / (UNIT as int), 2, TERMS as nat) / (UNIT as int)
}

/// The cosine of an angle of the first quadrant, given in micro-arcseconds.
pub open spec fn quadrant_cosine(value: int) -> int {
    if value <= EIGHTH_TURN {
        cosine_series(scaled_radians(value))
    } else {
        sine_series(scaled_radians(QUARTER_TURN - value))
    }
}

/// The sine of an angle of the first quadrant, given in micro-arcseconds.
pub open spec fn quadrant_sine(value: int) -> int {
    if value <= EIGHTH_TURN {
        sine_series(scaled_radians(value))
    } else {
        cosine_series(scaled_radians(QUARTER_TURN - value))
    }
}

/// The cosine of an angle of `value` micro-arcseconds, scaled by `UNIT`: the
/// angle is reduced to one turn, and the quadrant decides the sign and which of
/// the two first-quadrant functions applies.
pub open spec fn cosine_of(value: int) -> int {
    let reduced = value % (FULL_TURN as int);
    let quadrant = reduced / (QUARTER_TURN as int);
    let within = reduced % (QUARTER_TURN as int);
    if quadrant == 0 {
        quadrant_cosine(within)
    } else if quadrant == 1 {
        -quadrant_sine(within)
    } else if quadrant == 2 {
        -quadrant_cosine(within)
    } else {
        quadrant_sine(within)
    }
}

/// The sine of an angle of `value` micro-arcseconds, scaled by `UNIT`.
pub open spec fn sine_of(value: int) -> int {
    let reduced = value % (FULL_TURN as int);
    let quadrant = reduced / (QUARTER_TURN as int);
    let within = reduced % (QUARTER_TURN as int);
    if quadrant == 0 {
        quadrant_sine(within)
    } else if quadrant == 1 {
        quadrant_cosine(within)
    } else if quadrant == 2 {
        -quadrant_sine(within)
    } else {
        -quadrant_cosine(within)
    }
}

/// The nested series stays between zero and one.
pub proof fn lemma_series_bounds(x2: int, k: int, terms: nat)
    requires
        0 <= x2 <= UNIT,
        k >= 1,
    ensures
        0 <= series(x2, k, terms) <= UNIT,
    decreases terms,
{
    if terms > 0 {
        let inner = series(x2, k + 2, (terms - 1) as nat);
        lemma_series_bounds(x2, k + 2, (terms - 1) as nat);
        lemma_scaled_product(x2, inner);
        let product = x2 * inner / (UNIT as int);
        assert(0 <= product / (k * (k + 1)) <= product) by (nonlinear_arith)
            requires
                0 <= product,
                k >= 1,
        ;
    }
}

/// The product of two numbers between zero and one, scaled back, is between
/// zero and the smaller of them.
pub proof fn lemma_scaled_product(a: int, b: int)
    requires
        0 <= a <= UNIT,
        0 <= b <= UNIT,
    ensures
        0 <= a * b <= 1_000_000_000_000_000_000 * 1_000_000_000_000_000_000,
        0 <= a * b / (UNIT as int) <= a,
        0 <= a * b / (UNIT as int) <= b,
{
    assert(0 <= a * b <= 1_000_000_000_000_000_000 * 1_000_000_000_000_000_000
        && a * b <= a * 1_000_000_000_000_000_000
        && a * b <= b * 1_000_000_000_000_000_000) by (nonlinear_arith)
        requires
            0 <= a <= 1_000_000_000_000_000_000,
            0 <= b <= 1_000_000_000_000_000_000,
    ;
    assert(a * 1_000_000_000_000_000_000 / 1_000_000_000_000_000_000 == a) by (nonlinear_arith);
    assert(b * 1_000_000_000_000_000_000 / 1_000_000_000_000_000_000 == b) by (nonlinear_arith);
    vstd::arithmetic::div_mod::lemma_div_is_ordered(a * b, a * 1_000_000_000_000_000_000int,
        1_000_000_000_000_000_000);
    vstd::arithmetic::div_mod::lemma_div_is_ordered(a * b, b * 1_000_000_000_000_000_000int,
        1_000_000_000_000_000_000);
    vstd::arithmetic::div_mod::lemma_div_pos_is_pos(a * b, 1_000_000_000_000_000_000);
}

/// An angle of at most 45° is at most π/4 in radians, which is less than one.
pub proof fn lemma_scaled_radians_bounds(value: int)
    requires
        0 <= value <= EIGHTH_TURN,
    ensures
        0 <= value * PI_SCALED <= 162_000_000_000 * 3_141_592_653_589_793_238,
        0 <= scaled_radians(value) <= 785_398_163_397_448_310,
{
    assert(0 <= value * 3_141_592_653_589_793_238 <= 162_000_000_000
        * 3_141_592_653_589_793_238) by (nonlinear_arith)
        requires
            0 <= value <= 162_000_000_000,
    ;
    vstd::arithmetic::div_mod::lemma_div_is_ordered(value * PI_SCALED, 162_000_000_000int
        * 3_141_592_653_589_793_238int, HALF_TURN as int);
    vstd::arithmetic::div_mod::lemma_div_pos_is_pos(value * PI_SCALED, HALF_TURN as int);
}

/// Both first-quadrant functions stay between zero and one.
pub proof fn lemma_quadrant_bounds(value: int)
    requires
        0 <= value <= QUARTER_TURN,
    ensures
        0 <= quadrant_cosine(value) <= UNIT,
        0 <= quadrant_sine(value) <= UNIT,
{
    let folded = if value <= EIGHTH_TURN { value } else { QUARTER_TURN - value };
    let t = scaled_radians(folded);
    lemma_scaled_radians_bounds(folded);
    lemma_scaled_product(t, t);
    let x2 = t * t / (UNIT as int);
    lemma_series_bounds(x2, 1, TERMS as nat);
    lemma_series_bounds(x2, 2, TERMS as nat);
    lemma_scaled_product(t, series(x2, 2, TERMS as nat));
}

/// Sine and cosine never exceed one in magnitude.
pub proof fn lemma_unit_bounds(value: int)
    ensures
        -UNIT <= cosine_of(value) <= UNIT,
        -UNIT <= sine_of(value) <= UNIT,
{
    let reduced = value % (FULL_TURN as int);
    lemma_quadrant_bounds(reduced % (QUARTER_TURN as int));
}

/// A whole number of turns more or less changes neither function.
pub proof fn law_periodic(value: int, turns: int)
    ensures
        cosine_of(value + turns * FULL_TURN) == cosine_of(value),
        sine_of(value + turns * FULL_TURN) == sine_of(value),
{
    vstd::arithmetic::div_mod::lemma_mod_multiples_vanish(turns, value, FULL_TURN as int);
    assert(value + turns * FULL_TURN == FULL_TURN * turns + value) by (nonlinear_arith);
}

/// At the quarter turns both functions are exact.
pub proof fn law_quarter_turns()
    ensures
        cosine_of(0) == UNIT,
        sine_of(0) == 0,
        cosine_of(QUARTER_TURN as int) == 0,
        sine_of(QUARTER_TURN as int) == UNIT,
        cosine_of(HALF_TURN as int) == -UNIT,
        sine_of(HALF_TURN as int) == 0,
        cosine_of(3 * QUARTER_TURN) == 0,
        sine_of(3 * QUARTER_TURN) == -UNIT,
{
    lemma_series_at_zero(1, TERMS as nat);
    lemma_series_at_zero(2, TERMS as nat);
    assert(sine_series(0) == 0);
}

/// At zero the nested series is one.
proof fn lemma_series_at_zero(k: int, terms: nat)
    requires
        k >= 1,
    ensures
        series(0, k, terms) == UNIT,
    decreases terms,
{
    if terms > 0 {
        lemma_series_at_zero(k + 2, (terms - 1) as nat);
        assert(0int / (k * (k + 1)) == 0) by (nonlinear_arith)
            requires
                k >= 1,
        ;
    }
}

/// Evaluates the nested series from the innermost factor outwards.
fn eval_series(x2: i128, first: i128) -> (acc: i128)
    requires
        0 <= x2 <= UNIT,
        first == 1 || first == 2,
    ensures
        acc == series(x2 as int, first as int, TERMS as nat),
        0 <= acc <= UNIT,
{
    let mut acc: i128 = UNIT as i128;
    let mut done: u32 = 0;
    while done < TERMS
        invariant
            0 <= done <= TERMS,
            0 <= x2 <= UNIT,
            first == 1 || first == 2,
            acc == series(x2 as int, first + 2 * (TERMS - done), done as nat),
            0 <= acc <= UNIT,
        decreases TERMS - done,
    {
        let k: i128 = first + 2 * ((TERMS - done - 1) as i128);
        proof {
            lemma_scaled_product(x2 as int, acc as int);
            lemma_series_bounds(x2 as int, k as int, (done + 1) as nat);
            assert(2 <= k * (k + 1) <= 272) by (nonlinear_arith)
                requires
                    1 <= k <= 16,
            ;
        }
        acc = UNIT as i128 - (x2 * acc / (UNIT as i128)) / (k * (k + 1));
        done = done + 1;
    }
    acc
}

/// Evaluates the cosine series at an angle of at most 45°.
fn eval_cosine_series(value: i64) -> (c: i64)
    requires
        0 <= value <= EIGHTH_TURN,
    ensures
        c == cosine_series(scaled_radians(value as int)),
        0 <= c <= UNIT,
{
    proof {
        lemma_scaled_radians_bounds(value as int);
    }
    let t: i128 = value as i128 * PI_SCALED / (HALF_TURN as i128);
    proof {
        lemma_scaled_product(t as int, t as int);
    }
    let x2: i128 = t * t / (UNIT as i128);
    eval_series(x2, 1) as i64
}

/// Evaluates the sine series at an angle of at most 45°.
fn eval_sine_series(value: i64) -> (s: i64)
    requires
        0 <= value <= EIGHTH_TURN,
    ensures
        s == sine_series(scaled_radians(value as int)),
        0 <= s <= UNIT,
{
    proof {
        lemma_scaled_radians_bounds(value as int);
    }
    let t: i128 = value as i128 * PI_SCALED / (HALF_TURN as i128);
    proof {
        lemma_scaled_product(t as int, t as int);
    }
    let x2: i128 = t * t / (UNIT as i128);
    let factor: i128 = eval_series(x2, 2);
    proof {
        lemma_scaled_product(t as int, factor as int);
    }
    (t * factor / (UNIT as i128)) as i64
}

/// Cosine of an angle of the first quadrant.
fn eval_quadrant_cosine(value: i64) -> (c: i64)
    requires
        0 <= value <= QUARTER_TURN,
    ensures
        c == quadrant_cosine(value as int),
        0 <= c <= UNIT,
{
    if value <= EIGHTH_TURN {
        eval_cosine_series(value)
    } else {
        eval_sine_series(QUARTER_TURN - value)
    }
}

/// Sine of an angle of the first quadrant.
fn eval_quadrant_sine(value: i64) -> (s: i64)
    requires
        0 <= value <= QUARTER_TURN,
    ensures
        s == quadrant_sine(value as int),
        0 <= s <= UNIT,
{
    if value <= EIGHTH_TURN {
        eval_sine_series(value)
    } else {
        eval_cosine_series(QUARTER_TURN - value)
    }
}

/// The cosine of an angle, scaled by `UNIT`.
pub fn cosine(angle: Degrees) -> (c: i64)
    ensures
        c == cosine_of(angle.0 as int),
        -UNIT <= c <= UNIT,
{
    let (_, reduced) = div_floor(angle.0 as i128, FULL_TURN as i128);
    let quadrant: i128 = reduced / (QUARTER_TURN as i128);
    let within: i64 = (reduced % (QUARTER_TURN as i128)) as i64;
    if quadrant == 0 {
        eval_quadrant_cosine(within)
    } else if quadrant == 1 {
        -eval_quadrant_sine(within)
    } else if quadrant == 2 {
        -eval_quadrant_cosine(within)
    } else {
        eval_quadrant_sine(within)
    }
}

/// The sine of an angle, scaled by `UNIT`.
pub fn sine(angle: Degrees) -> (s: i64)
    ensures
        s == sine_of(angle.0 as int),
        -UNIT <= s <= UNIT,
{
    let (_, reduced) = div_floor(angle.0 as i128, FULL_TURN as i128);
    let quadrant: i128 = reduced / (QUARTER_TURN as i128);
    let within: i64 = (reduced % (QUARTER_TURN as i128)) as i64;
    if quadrant == 0 {
        eval_quadrant_sine(within)
    } else if quadrant == 1 {
        eval_quadrant_cosine(within)
    } else if quadrant == 2 {
        -eval_quadrant_sine(within)
    } else {
        -eval_quadrant_cosine(within)
    }
}

} // verus!
