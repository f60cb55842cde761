//! The instant of solar noon at a longitude on a date.
//!
//! Time of day is counted as the rotation of the Earth: 15 000 000
//! micro-arcseconds to the second, which is 4 minutes to the degree and a full
//! turn to the day. Mean noon at the reference meridian is then half a turn;
//! the longitude and the equation of time are taken off it as angles.

use vstd::prelude::*;
use crate::angle::{Angle, Degrees};
use crate::calendar::{CalendarDate, ClockTime, DateTimeView, UtcDateTime};
use crate::coordinate::Longitude;
use crate::fixed::{div_round, lemma_round_div_error, lemma_round_div_monotonic, round_div};
use crate::sun_declination::DAYS_PER_YEAR;
use crate::trig::{cosine, cosine_of, lemma_unit_bounds, sine, sine_of, FULL_TURN, HALF_TURN, UNIT};

verus! {

/// Micro-arcseconds that the Earth turns in one second.
pub const ROTATION_PER_SECOND: i64 = 15_000_000;

/// The factor from the series of the equation of time to micro-arcseconds of
/// rotation: 229.18 minutes, at 900 000 000 micro-arcseconds of rotation to the
/// minute, over the million by which the coefficients of the series are
/// scaled.
pub const SERIES_TO_ROTATION: i64 = 206_262;

/// The largest magnitude of the equation of time, in micro-arcseconds of
/// rotation: a little over 20 minutes.
pub const EQUATION_OF_TIME_LIMIT: i64 = 18_457_148_808;

/// The fraction of the year that has passed at a day, as an angle in
/// micro-arcseconds: 360/365 of a degree for each day since the first of
/// January, rounded to the nearest micro-arcsecond.
pub open spec fn fractional_year(day_of_year: int) -> int {
    round_div(FULL_TURN * (day_of_year - 1), DAYS_PER_YEAR as int)
}

/// The series of the equation of time at a fraction of the year `y`,
/// `0.000075 + 0.001868 cos y − 0.032077 sin y − 0.014615 cos 2y − 0.040849 sin 2y`,
/// with its coefficients scaled by a million and its value by `UNIT`.
pub open spec fn equation_series(y: int) -> int {
    75 * UNIT + 1868 * cosine_of(y) - 32077 * sine_of(y) - 14615 * cosine_of(2 * y) - 40849
        * sine_of(2 * y)
}

/// The equation of time on a day of the year, in micro-arcseconds of rotation,
/// rounded to the nearest.
pub open spec fn equation_of_time(day_of_year: int) -> int {
    round_div(
        equation_series(fractional_year(day_of_year)) * SERIES_TO_ROTATION,
        UNIT as int,
    )
}

/// The rotation since midnight UTC at solar noon: half a turn, less the
/// longitude, less the equation of time.
pub open spec fn solar_noon(longitude: int, day_of_year: int) -> int {
    HALF_TURN - longitude - equation_of_time(day_of_year)
}

/// The whole seconds since midnight UTC at solar noon, if solar noon falls
/// within the day in UTC; a fraction of a second is cut off.
pub open spec fn culmination_seconds(longitude: int, day_of_year: int) -> Option<int> {
    let noon = solar_noon(longitude, day_of_year);
    if 0 <= noon < FULL_TURN {
        Some(noon / (ROTATION_PER_SECOND as int))
    } else {
        None
    }
}

/// The equation of time stays within a little over 20 minutes either way.
pub proof fn lemma_equation_of_time_bounds(day_of_year: int)
    ensures
        -EQUATION_OF_TIME_LIMIT <= equation_of_time(day_of_year) <= EQUATION_OF_TIME_LIMIT,
{
    let y = fractional_year(day_of_year);
    lemma_unit_bounds(y);
    lemma_unit_bounds(2 * y);
    let series = equation_series(y);
    // the five coefficients add up to 89 484
    let limit = 89_484 * 1_000_000_000_000_000_000int * 206_262;
    lemma_round_div_monotonic(series * SERIES_TO_ROTATION, limit, UNIT as int);
    lemma_round_div_monotonic(-limit, series * SERIES_TO_ROTATION, UNIT as int);
    assert(round_div(limit, UNIT as int) == 18_457_148_808);
}

/// Solar noon falls within the day in UTC for every longitude up to 174°
/// either way.
pub proof fn law_culmination_exists(longitude: int, day_of_year: int)
    requires
        -174 * 3_600_000_000 <= longitude <= 174 * 3_600_000_000,
    ensures
        culmination_seconds(longitude, day_of_year).is_some(),
{
    lemma_equation_of_time_bounds(day_of_year);
}

/// The equation of time on a day of the year, in micro-arcseconds of rotation.
pub fn equation_of_time_on_day(day_of_year: u32) -> (rotation: i64)
    requires
        1 <= day_of_year <= 366,
    ensures
        rotation == equation_of_time(day_of_year as int),
        -EQUATION_OF_TIME_LIMIT <= rotation <= EQUATION_OF_TIME_LIMIT,
{
    let y: i128 = div_round(
        FULL_TURN as i128 * (day_of_year as i128 - 1),
        DAYS_PER_YEAR as i128,
    );
    proof {
        lemma_round_div_error(FULL_TURN * (day_of_year - 1), DAYS_PER_YEAR as int);
        lemma_equation_of_time_bounds(day_of_year as int);
    }
    let single = Degrees(y as i64);
    let double = Degrees((2 * y) as i64);
    let series: i128 = 75 * (UNIT as i128) + 1868 * (cosine(single) as i128) - 32077 * (sine(
        single,
    ) as i128) - 14615 * (cosine(double) as i128) - 40849 * (sine(double) as i128);
    div_round(series * (SERIES_TO_ROTATION as i128), UNIT as i128) as i64
}

/// The instant of solar noon at a longitude on a date, at the start of the
/// second that it falls in. There is none if solar noon at that longitude
/// falls on another day in UTC.
pub fn culmination(lng: Longitude, date: CalendarDate) -> (instant: Option<UtcDateTime>)
    ensures
        match culmination_seconds(lng.raw_angle.as_degrees().0 as int, date@.day_of_year()) {
            Some(seconds) => instant.is_some() && instant.unwrap()@ == (DateTimeView {
                date: date@,
                seconds,
                nanosecond: 0,
            }),
            None => instant.is_none(),
        },
{
    let equation: i64 = equation_of_time_on_day(date.ordinal());
    let longitude: i64 = Degrees::from(lng.raw_angle).0;
    let noon: i128 = HALF_TURN as i128 - longitude as i128 - equation as i128;
    if 0 <= noon && noon < FULL_TURN as i128 {
        let seconds: u32 = (noon / (ROTATION_PER_SECOND as i128)) as u32;
        let hour: u32 = seconds / 3600;
        let minute: u32 = seconds / 60 % 60;
        let second: u32 = seconds % 60;
        match ClockTime::new(hour, minute, second) {
            Some(time) => Some(UtcDateTime::new(date, time)),
            None => None,
        }
    } else {
        None
    }
}

/// The instant of solar noon at the reference meridian on a date.
pub fn reference_culmination(date: CalendarDate) -> (instant: UtcDateTime)
    ensures
        culmination_seconds(0, date@.day_of_year()) == Some(instant@.seconds),
        instant@.nanosecond == 0,
        instant@.date == date@,
{
    proof {
        law_culmination_exists(0, date@.day_of_year());
    }
    let reference_longitude = Longitude::new(Angle::from(Degrees(0)));
    match culmination(reference_longitude, date) {
        Some(instant) => instant,
        None => vstd::pervasive::unreached(),
    }
}

} // verus!
