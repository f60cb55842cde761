//! Latitude, longitude and the position they give.
//!
//! Each is one signed angle: the sign is the hemisphere (positive north and
//! east), so hemisphere and magnitude can never disagree.

use vstd::prelude::*;
use vstd::string::*;
use crate::angle::{lemma_degrees_of_radians_fits, Angle, DegreeMinutesSeconds, Degrees};
use crate::fixed::{saturate, saturate_i64};
use crate::hemisphere;

verus! {

/// The angle without its sign: itself when it is not negative, else its
/// negation, taken in degrees and saturated.
pub open spec fn magnitude(raw_angle: Angle) -> Angle {
    if raw_angle.is_negative() {
        Angle::Degrees(Degrees(saturate(-raw_angle.as_degrees().0) as i64))
    } else {
        raw_angle
    }
}

/// The text of a hemisphere's name and, on the next line, of an angle taken
/// apart into degrees, minutes and seconds.
pub open spec fn labelled(label: Seq<char>, angle: Angle) -> Seq<char> {
    label + seq!['\n'] + DegreeMinutesSeconds::of_angle(angle).text()
}

/// Tells whether an angle is below zero, by its count in its own unit.
fn below_zero(raw_angle: Angle) -> (negative: bool)
    ensures
        negative == raw_angle.is_negative(),
{
    match raw_angle {
        Angle::Degrees(degrees) => degrees.0 < 0,
        Angle::Radians(radians) => radians.0 < 0,
    }
}

/// Computes the angle without its sign.
fn magnitude_of(raw_angle: Angle) -> (angle: Angle)
    ensures
        angle == magnitude(raw_angle),
        !angle.is_negative(),
        angle.as_degrees().0 >= 0,
{
    proof {
        lemma_degrees_of_radians_fits(raw_angle.count());
    }
    if below_zero(raw_angle) {
        Angle::from(Degrees(saturate_i64(-(Degrees::from(raw_angle).0 as i128))))
    } else {
        raw_angle
    }
}

/// Renders a hemisphere's name and an angle on two lines.
fn labelled_text(label: String, angle: Angle) -> (text: String)
    ensures
        text@ == labelled(label@, angle),
{
    let mut text = label;
    proof {
        reveal_strlit("\n");
    }
    text.append("\n");
    let dms = DegreeMinutesSeconds::from(angle).to_string();
    text.append(dms.as_str());
    proof {
        assert(text@ =~= labelled(label@, angle));
    }
    text
}

/// North–south position of a point on the Earth's surface.
#[derive(Debug, Clone, Copy, PartialEq, Eq, PartialOrd, Structural)]
pub struct Latitude {
    /// Positive in the northern, negative in the southern hemisphere.
    pub raw_angle: Angle,
}

/// East–west position of a point on the Earth's surface.
#[derive(Debug, Clone, Copy, PartialEq, Eq, PartialOrd, Structural)]
pub struct Longitude {
    /// Positive in the eastern, negative in the western hemisphere.
    pub raw_angle: Angle,
}

/// Geographic position of a point on the Earth's surface.
#[derive(Debug, Clone, Copy, PartialEq, Eq, PartialOrd, Structural)]
pub struct Coordinate {
    latitude: Latitude,
    longitude: Longitude,
}

impl Latitude {
    /// The latitude of a signed angle, positive to the north.
    pub fn new(raw_angle: Angle) -> (latitude: Self)
        ensures
            latitude.raw_angle == raw_angle,
    {
        Self { raw_angle }
    }

    /// The hemisphere that the sign stands for: south for a negative angle,
    /// north for any other.
    pub open spec fn side(self) -> hemisphere::Latitude {
        if self.raw_angle.is_negative() {
            hemisphere::Latitude::South
        } else {
            hemisphere::Latitude::North
        }
    }

    /// The rendering: the hemisphere's name, then the magnitude on a line of
    /// its own.
    pub open spec fn text(self) -> Seq<char> {
        labelled(self.side().label(), magnitude(self.raw_angle))
    }

    /// The angle within its hemisphere, never negative.
    pub fn angle(&self) -> (angle: Angle)
        ensures
            angle == magnitude(self.raw_angle),
            !angle.is_negative(),
            angle.as_degrees().0 >= 0,
    {
        magnitude_of(self.raw_angle)
    }

    /// Whether the latitude lies in the northern or the southern hemisphere.
    pub fn hemisphere(&self) -> (side: hemisphere::Latitude)
        ensures
            side == self.side(),
    {
        if below_zero(self.raw_angle) {
            hemisphere::Latitude::South
        } else {
            hemisphere::Latitude::North
        }
    }

    /// Renders the latitude.
    pub fn to_string(&self) -> (text: String)
        ensures
            text@ == self.text(),
    {
        labelled_text(self.hemisphere().to_string(), self.angle())
    }
}

impl Longitude {
    /// The longitude of a signed angle, positive to the east.
    pub fn new(raw_angle: Angle) -> (longitude: Self)
        ensures
            longitude.raw_angle == raw_angle,
    {
        Self { raw_angle }
    }

    /// The hemisphere that the sign stands for: west for a negative angle,
    /// east for any other.
    pub open spec fn side(self) -> hemisphere::Longitude {
        if self.raw_angle.is_negative() {
            hemisphere::Longitude::West
        } else {
            hemisphere::Longitude::East
        }
    }

    /// The rendering: the hemisphere's name, then the magnitude on a line of
    /// its own.
    pub open spec fn text(self) -> Seq<char> {
        labelled(self.side().label(), magnitude(self.raw_angle))
    }

    /// The angle within its hemisphere, never negative.
    pub fn angle(&self) -> (angle: Angle)
        ensures
            angle == magnitude(self.raw_angle),
            !angle.is_negative(),
            angle.as_degrees().0 >= 0,
    {
        magnitude_of(self.raw_angle)
    }

    /// Whether the longitude lies in the eastern or the western hemisphere.
    pub fn hemisphere(&self) -> (side: hemisphere::Longitude)
        ensures
            side == self.side(),
    {
        if below_zero(self.raw_angle) {
            hemisphere::Longitude::West
        } else {
            hemisphere::Longitude::East
        }
    }

    /// Renders the longitude.
    pub fn to_string(&self) -> (text: String)
        ensures
            text@ == self.text(),
    {
        labelled_text(self.hemisphere().to_string(), self.angle())
    }
}

impl View for Coordinate {
    type V = (Latitude, Longitude);

    closed spec fn view(&self) -> (Latitude, Longitude) {
        (self.latitude, self.longitude)
    }
}

impl Coordinate {
    /// Two positions with the same view are the same.
    pub proof fn lemma_view_decides(self, other: Coordinate)
        ensures
            self@ == other@ <==> self == other,
    {
    }

    /// The position at a latitude and a longitude.
    pub fn new(latitude: Latitude, longitude: Longitude) -> (coordinate: Self)
        ensures
            coordinate@ == (latitude, longitude),
    {
        Self { latitude, longitude }
    }

    /// The north–south position.
    pub fn latitude(&self) -> (latitude: Latitude)
        ensures
            latitude == self@.0,
    {
        self.latitude
    }

    /// The east–west position.
    pub fn longitude(&self) -> (longitude: Longitude)
        ensures
            longitude == self@.1,
    {
        self.longitude
    }

    /// The rendering: the latitude's two lines, then the longitude's.
    pub open spec fn text(self) -> Seq<char> {
        self@.0.text() + seq!['\n'] + self@.1.text()
    }

    /// Renders the position.
    pub fn to_string(&self) -> (text: String)
        ensures
            text@ == self.text(),
    {
        let mut text = self.latitude.to_string();
        proof {
            reveal_strlit("\n");
        }
        text.append("\n");
        let longitude = self.longitude.to_string();
        text.append(longitude.as_str());
        proof {
            assert(text@ =~= self.text());
        }
        text
    }
}

/// The magnitude of an angle is never negative, neither by its own count nor
/// in degrees, and a negative angle never has the positive hemisphere.
pub proof fn law_magnitude_not_negative(raw_angle: Angle)
    ensures
        !magnitude(raw_angle).is_negative(),
        magnitude(raw_angle).as_degrees().0 >= 0,
        raw_angle.is_negative() <==> (Latitude { raw_angle }).side() == hemisphere::Latitude::South,
        raw_angle.is_negative() <==> (Longitude { raw_angle }).side()
            == hemisphere::Longitude::West,
{
    lemma_degrees_of_radians_fits(raw_angle.count());
}

/// A position's sign and magnitude give back its angle in degrees: the
/// magnitude itself in the positive hemisphere, its negation in the negative
/// one, as long as the angle is not the lowest that `i64` holds.
pub proof fn law_sign_and_magnitude(raw_angle: Angle)
    requires
        raw_angle.as_degrees().0 > i64::MIN,
    ensures
        raw_angle.is_negative() ==> magnitude(raw_angle).as_degrees().0
            == -raw_angle.as_degrees().0,
        !raw_angle.is_negative() ==> magnitude(raw_angle) == raw_angle,
{
}

} // verus!
