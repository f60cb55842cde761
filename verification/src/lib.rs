//! Position fixing from one sextant sight of the sun at its culmination.
//!
//! A sight is the sun's elevation above the horizon at local solar noon, the
//! instant of the sight, and the index error of the instrument. The latitude
//! follows from the elevation and the sun's declination on that day; the
//! longitude from the time between the sight and solar noon at the reference
//! meridian.
//!
//! Everything is computed on whole numbers, so that every result is exactly
//! what its contract says:
//! - an angle in degrees counts micro-arcseconds, one in radians picoradians
//!   ([`angle`]);
//! - sine and cosine are series on numbers scaled by 10^18 ([`trig`]);
//! - a time of day counts seconds and nanoseconds ([`calendar`]), and the
//!   rotation of the Earth micro-arcseconds ([`culmination`]);
//! - a result beyond the range of `i64` saturates at the nearest bound.
//!
//! The days of the calendar are counted by `chrono`, behind three functions of
//! [`calendar`] whose contracts are taken on trust.

pub mod angle;
pub mod calendar;
pub mod coordinate;
pub mod culmination;
pub mod fixed;
pub mod hemisphere;
pub mod sextant;
pub mod sun_declination;
pub mod text;
pub mod trig;

pub use culmination::{culmination, reference_culmination};
pub use sextant::SextantMeasurement;
pub use sun_declination::calculate as calculate_sun_declination;
