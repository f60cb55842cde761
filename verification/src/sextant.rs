//! From one sight of the sun at its culmination to a position.

use vstd::prelude::*;
use crate::angle::{lemma_degrees_of_radians_fits, Angle, Degrees};
use crate::calendar::{DateTimeView, UtcDateTime};
use crate::coordinate::{Coordinate, Latitude, Longitude};
use crate::culmination::{
    culmination_seconds, lemma_equation_of_time_bounds, reference_culmination,
    ROTATION_PER_SECOND,
};
use crate::sun_declination::{calculate, declination_of_day, lemma_declination_bounds};
use crate::trig::QUARTER_TURN;

verus! {

/// A measurement of the sun's angle above the horizon at the time of its
/// highest point.
#[derive(Debug, Clone, Copy, PartialEq, Eq, Structural)]
pub struct SextantMeasurement {
    /// The instant of the measurement, which is that of the culmination.
    pub culmination_time: UtcDateTime,
    /// Measured angle of the sun above the horizon.
    pub elevation: Angle,
    /// Error of the sextant, which is taken off the elevation.
    pub index_error: Angle,
}

impl SextantMeasurement {
    /// The latitude that the sight gives: 90° less the height of the celestial
    /// equator, which is the elevation, corrected by the index error, less the
    /// sun's declination on the day of the sight.
    pub open spec fn latitude(self) -> Latitude {
        Latitude {
            raw_angle: Angle::Degrees(Degrees(QUARTER_TURN)).minus(
                self.elevation.minus(self.index_error).minus(
                    declination_of_day(self.culmination_time@.date.day_of_year()),
                ),
            ),
        }
    }

    /// Solar noon at the reference meridian on the day of the sight.
    pub open spec fn reference(self) -> DateTimeView {
        DateTimeView {
            date: self.culmination_time@.date,
            seconds: culmination_seconds(0, self.culmination_time@.date.day_of_year()).unwrap(),
            nanosecond: 0,
        }
    }

    /// The whole seconds by which solar noon at the reference meridian, on
    /// the day of the sight, comes after the sight; a fraction of a second is
    /// cut off towards zero.
    pub open spec fn seconds_before_reference(self) -> int {
        self.reference().seconds_since(self.culmination_time@)
    }

    /// The longitude that the sight gives: 15 seconds of arc for each second
    /// of time by which the sun culminated here before it does at the
    /// reference meridian, so east is positive.
    pub open spec fn longitude(self) -> Longitude {
        Longitude {
            raw_angle: Angle::Degrees(
                Degrees((self.seconds_before_reference() * ROTATION_PER_SECOND) as i64),
            ),
        }
    }

    /// Calculates the latitude of the observer, positive to the north.
    ///
    /// One sight cannot tell on which side of the observer the sun
    /// culminated. It is taken to have culminated to the south, so that the
    /// latitude is the declination plus the sun's distance from the zenith.
    /// Where it culminated to the north, the latitude is the declination less
    /// that distance, which is left to the caller.
    pub fn calculate_latitude(&self) -> (latitude: Latitude)
        ensures
            latitude == self.latitude(),
    {
        let corrected_elevation = self.elevation - self.index_error;
        let sun_declination = calculate(self.culmination_time);
        let celestial_equator_height = corrected_elevation - sun_declination;
        let latitude = Angle::from(Degrees(QUARTER_TURN)) - celestial_equator_height;
        Latitude::new(latitude)
    }

    /// Calculates the longitude of the observer, positive to the east of the
    /// reference meridian.
    pub fn calculate_longitude(&self) -> (longitude: Longitude)
        ensures
            longitude == self.longitude(),
    {
        let reference = reference_culmination(self.culmination_time.date);
        let sun_peak_delta: i64 = reference.seconds_since(&self.culmination_time);
        proof {
            use_type_invariant(&self.culmination_time.time);
            use_type_invariant(&reference.time);
        }
        Longitude::new(Angle::from(Degrees(sun_peak_delta * ROTATION_PER_SECOND)))
    }

    /// Calculates the position of the observer.
    pub fn calculate_coordinate(&self) -> (coordinate: Coordinate)
        ensures
            coordinate@ == (self.latitude(), self.longitude()),
    {
        Coordinate::new(self.calculate_latitude(), self.calculate_longitude())
    }
}

/// With elevation and index error in degrees, and both within 10^18
/// micro-arcseconds, the latitude is plainly 90° less the elevation, plus the
/// index error, plus the declination in degrees: nothing saturates.
pub proof fn law_latitude_in_degrees(sight: SextantMeasurement)
    requires
        sight.elevation is Degrees,
        sight.index_error is Degrees,
        -1_000_000_000_000_000_000 <= sight.elevation.as_degrees().0
            <= 1_000_000_000_000_000_000,
        -1_000_000_000_000_000_000 <= sight.index_error.as_degrees().0
            <= 1_000_000_000_000_000_000,
    ensures
        sight.latitude().raw_angle is Degrees,
        sight.latitude().raw_angle.as_degrees().0 == QUARTER_TURN
            - sight.elevation.as_degrees().0 + sight.index_error.as_degrees().0
            + declination_of_day(sight.culmination_time@.date.day_of_year()).as_degrees().0,
{
    let day = sight.culmination_time@.date.day_of_year();
    lemma_declination_bounds(day);
    lemma_degrees_of_radians_fits(declination_of_day(day).as_radians().0 as int);
}

/// A sight taken at the instant of solar noon at some longitude, as
/// `culmination` gives it, gives that longitude back to within the 15 seconds
/// of arc that the Earth turns in one second.
pub proof fn law_longitude_of_culmination(sight: SextantMeasurement, longitude: int)
    requires
        culmination_seconds(longitude, sight.culmination_time@.date.day_of_year()) == Some(
            sight.culmination_time@.seconds,
        ),
        sight.culmination_time@.nanosecond == 0,
    ensures
        -ROTATION_PER_SECOND < sight.longitude().raw_angle.as_degrees().0 - longitude
            < ROTATION_PER_SECOND,
{
    lemma_equation_of_time_bounds(sight.culmination_time@.date.day_of_year());
}

} // verus!
