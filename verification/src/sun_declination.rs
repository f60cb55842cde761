//! The sun's declination on a day of the year.
//!
//! A single harmonic stands for the whole year: −23.45° times the cosine of
//! 360/365 of a degree for each day counted from ten days before the year
//! began. No leap year and no refraction is taken into account.

use vstd::prelude::*;
use crate::angle::{radians_of_degrees, Angle, Degrees, Radians, RATIO_DEN, RATIO_NUM};
use crate::calendar::UtcDateTime;
use crate::fixed::{
    div_round, lemma_round_div_error, lemma_round_div_monotonic, lemma_round_div_nearest,
    round_div,
};
use crate::trig::{cosine, cosine_of, lemma_unit_bounds, FULL_TURN, UNIT};

verus! {

/// The declination at the winter solstice, −23.45°, in micro-arcseconds.
pub const AMPLITUDE: i64 = -84_420_000_000;

/// The same amplitude in picoradians: the micro-arcseconds times π/180,
/// rounded to the nearest picoradian.
pub const AMPLITUDE_RADIANS: i64 = -409_279_709_593;

/// The days of the year that the harmonic is spread over.
pub const DAYS_PER_YEAR: i64 = 365;

/// The days from the winter solstice to the end of its year.
pub const SOLSTICE_LEAD: i64 = 10;

/// The argument of the cosine in micro-arcseconds: 360/365 of a degree for
/// each day since ten days before the year began, rounded to the nearest
/// micro-arcsecond.
pub open spec fn seasonal_angle(day_of_year: int) -> int {
    round_div(FULL_TURN * (day_of_year + SOLSTICE_LEAD), DAYS_PER_YEAR as int)
}

/// The declination on a day of the year: the amplitude in radians times the
/// cosine of the seasonal angle, rounded to the nearest picoradian.
pub open spec fn declination_of_day(day_of_year: int) -> Angle {
    Angle::Radians(
        Radians(
            round_div(
                radians_of_degrees(AMPLITUDE as int) * cosine_of(seasonal_angle(day_of_year)),
                UNIT as int,
            ) as i64,
        ),
    )
}

/// The amplitude in picoradians is the amplitude in degrees, converted.
pub proof fn lemma_amplitude_in_radians()
    ensures
        radians_of_degrees(AMPLITUDE as int) == AMPLITUDE_RADIANS,
{
    lemma_round_div_nearest(AMPLITUDE * RATIO_NUM, RATIO_DEN as int, AMPLITUDE_RADIANS as int);
}

/// The declination never exceeds the amplitude: neither the product of the
/// amplitude and the cosine, nor its quotient by `UNIT`, nor the angle that
/// holds the quotient.
pub proof fn lemma_declination_bounds(day_of_year: int)
    ensures
        AMPLITUDE_RADIANS * UNIT <= AMPLITUDE_RADIANS * cosine_of(seasonal_angle(day_of_year))
            <= -AMPLITUDE_RADIANS * UNIT,
        AMPLITUDE_RADIANS <= round_div(
            AMPLITUDE_RADIANS * cosine_of(seasonal_angle(day_of_year)),
            UNIT as int,
        ) <= -AMPLITUDE_RADIANS,
        declination_of_day(day_of_year) is Radians,
        AMPLITUDE_RADIANS <= declination_of_day(day_of_year).as_radians().0 <= -AMPLITUDE_RADIANS,
{
    let c = cosine_of(seasonal_angle(day_of_year));
    let product = AMPLITUDE_RADIANS * c;
    let limit = 409_279_709_593 * 1_000_000_000_000_000_000int;
    lemma_amplitude_in_radians();
    lemma_unit_bounds(seasonal_angle(day_of_year));
    assert(-limit <= product <= limit) by (nonlinear_arith)
        requires
            product == -409_279_709_593 * c,
            limit == 409_279_709_593 * 1_000_000_000_000_000_000int,
            -1_000_000_000_000_000_000 <= c <= 1_000_000_000_000_000_000,
    ;
    lemma_round_div_monotonic(product, limit, UNIT as int);
    lemma_round_div_monotonic(-limit, product, UNIT as int);
    assert(round_div(limit, UNIT as int) == 409_279_709_593);
    assert(round_div(-limit, UNIT as int) == -409_279_709_593);
}

/// The sun's declination on a day of the year, counted from 1 for the first
/// of January.
pub fn declination_on_day(day_of_year: u32) -> (declination: Angle)
    requires
        1 <= day_of_year <= 366,
    ensures
        declination == declination_of_day(day_of_year as int),
{
    let angle: i128 = div_round(
        FULL_TURN as i128 * (day_of_year as i128 + SOLSTICE_LEAD as i128),
        DAYS_PER_YEAR as i128,
    );
    proof {
        lemma_round_div_error(
            FULL_TURN * (day_of_year + SOLSTICE_LEAD),
            DAYS_PER_YEAR as int,
        );
        lemma_amplitude_in_radians();
        lemma_declination_bounds(day_of_year as int);
    }
    let c: i64 = cosine(Degrees(angle as i64));
    let amplitude: i64 = Radians::from(Degrees(AMPLITUDE)).0;
    let scaled: i128 = div_round(amplitude as i128 * c as i128, UNIT as i128);
    Angle::from(Radians(scaled as i64))
}

/// The sun's declination at an instant: that of its day of the year in UTC.
pub fn calculate(date: UtcDateTime) -> (declination: Angle)
    ensures
        declination == declination_of_day(date@.date.day_of_year()),
{
    declination_on_day(date.date.ordinal())
}

} // verus!
