//! Angles in degrees or radians, held as exact fixed-point numbers.
//!
//! A value in degrees counts micro-arcseconds (3 600 000 000 to the degree); a
//! value in radians counts picoradians (10^12 to the radian). Every operation is
//! total: a result beyond the range of `i64` saturates at the nearest bound.

use vstd::prelude::*;
use vstd::string::*;
use vstd::std_specs::convert::FromSpecImpl;
use vstd::std_specs::ops::{AddSpecImpl, SubSpecImpl};
use crate::fixed::{
    div_floor, div_round, lemma_round_div_error, lemma_round_div_nearest, round_div, saturate,
    saturate_i64,
};
use crate::text::{push_two_wide, push_two_wide_integer, two_wide, two_wide_integer};

verus! {

/// Micro-arcseconds in one degree.
pub const MICROARCSECONDS_PER_DEGREE: i64 = 3_600_000_000;

/// Micro-arcseconds in one minute of arc.
pub const MICROARCSECONDS_PER_MINUTE: i64 = 60_000_000;

/// Micro-arcseconds in one second of arc.
pub const MICROARCSECONDS_PER_SECOND: i64 = 1_000_000;

/// Picoradians in one radian.
pub const PICORADIANS_PER_RADIAN: i64 = 1_000_000_000_000;

/// Numerator of the conversion ratio: picoradians per micro-arcsecond are
/// `RATIO_NUM / RATIO_DEN`, which is π/180 scaled by the two units, with π taken
/// as 3.1415926535897932 and the fraction reduced.
pub const RATIO_NUM: i128 = 7_853_981_633_974_483;

/// Denominator of the conversion ratio.
pub const RATIO_DEN: i128 = 1_620_000_000_000_000;

/// An angle in radians, counted in picoradians.
#[derive(Debug, Clone, Copy, PartialEq, Eq, PartialOrd, Structural)]
pub struct Radians(pub i64);

/// An angle in degrees, counted in micro-arcseconds.
#[derive(Debug, Clone, Copy, PartialEq, Eq, PartialOrd, Structural)]
pub struct Degrees(pub i64);

/// An angle in either degrees or radians.
#[derive(Debug, Clone, Copy, PartialEq, Eq, PartialOrd, Structural)]
pub enum Angle {
    Degrees(Degrees),
    Radians(Radians),
}

/// Picoradians for a count of micro-arcseconds: the product with π/180,
/// rounded to the nearest picoradian and saturated.
pub open spec fn radians_of_degrees(microarcseconds: int) -> int {
    saturate(round_div(microarcseconds * RATIO_NUM, RATIO_DEN as int))
}

/// Micro-arcseconds for a count of picoradians: the product with 180/π,
/// rounded to the nearest micro-arcsecond. It never leaves the range of `i64`.
pub open spec fn degrees_of_radians(picoradians: int) -> int {
    round_div(picoradians * RATIO_DEN, RATIO_NUM as int)
}

impl Angle {
    /// The count that the angle holds, in its own unit.
    pub open spec fn count(self) -> int {
        match self {
            Angle::Degrees(degrees) => degrees.0 as int,
            Angle::Radians(radians) => radians.0 as int,
        }
    }

    /// Whether the angle is below zero. The count decides in its own unit, so
    /// that no rounding of a conversion can hide the sign.
    pub open spec fn is_negative(self) -> bool {
        self.count() < 0
    }

    /// This angle in degrees: itself, or converted from radians.
    pub open spec fn as_degrees(self) -> Degrees {
        match self {
            Angle::Degrees(degrees) => degrees,
            Angle::Radians(radians) => Degrees(degrees_of_radians(radians.0 as int) as i64),
        }
    }

    /// This angle in radians: itself, or converted from degrees.
    pub open spec fn as_radians(self) -> Radians {
        match self {
            Angle::Degrees(degrees) => Radians(radians_of_degrees(degrees.0 as int) as i64),
            Angle::Radians(radians) => radians,
        }
    }
}

/// A count of micro-arcseconds is never larger in magnitude than the count of
/// picoradians it was converted from.
pub proof fn lemma_degrees_of_radians_fits(picoradians: int)
    ensures
        picoradians >= 0 ==> 0 <= degrees_of_radians(picoradians) <= picoradians,
        picoradians <= 0 ==> picoradians <= degrees_of_radians(picoradians) <= 0,
{
    let q = degrees_of_radians(picoradians);
    lemma_round_div_error(picoradians * RATIO_DEN, RATIO_NUM as int);
    assert(0 <= q <= picoradians || picoradians <= q <= 0) by (nonlinear_arith)
        requires
            -7_853_981_633_974_483 <= 2 * (q * 7_853_981_633_974_483 - picoradians
                * 1_620_000_000_000_000) <= 7_853_981_633_974_483,
    ;
}

impl From<Radians> for Degrees {
    fn from(radians: Radians) -> (degrees: Degrees)
        ensures
            degrees.0 == degrees_of_radians(radians.0 as int),
    {
        let scaled: i128 = (radians.0 as i128) * RATIO_DEN;
        let q: i128 = div_round(scaled, RATIO_NUM);
        proof {
            lemma_degrees_of_radians_fits(radians.0 as int);
        }
        Degrees(q as i64)
    }
}

impl FromSpecImpl<Radians> for Degrees {
    open spec fn obeys_from_spec() -> bool {
        true
    }

    open spec fn from_spec(radians: Radians) -> Degrees {
        Degrees(degrees_of_radians(radians.0 as int) as i64)
    }
}

impl From<Degrees> for Radians {
    fn from(degrees: Degrees) -> (radians: Radians)
        ensures
            radians.0 == radians_of_degrees(degrees.0 as int),
    {
        let scaled: i128 = (degrees.0 as i128) * RATIO_NUM;
        Radians(saturate_i64(div_round(scaled, RATIO_DEN)))
    }
}

impl FromSpecImpl<Degrees> for Radians {
    open spec fn obeys_from_spec() -> bool {
        true
    }

    open spec fn from_spec(degrees: Degrees) -> Radians {
        Radians(radians_of_degrees(degrees.0 as int) as i64)
    }
}

impl From<Degrees> for Angle {
    fn from(degrees: Degrees) -> (angle: Angle)
        ensures
            angle == Angle::Degrees(degrees),
    {
        Angle::Degrees(degrees)
    }
}

impl FromSpecImpl<Degrees> for Angle {
    open spec fn obeys_from_spec() -> bool {
        true
    }

    open spec fn from_spec(degrees: Degrees) -> Angle {
        Angle::Degrees(degrees)
    }
}

impl From<Radians> for Angle {
    fn from(radians: Radians) -> (angle: Angle)
        ensures
            angle == Angle::Radians(radians),
    {
        Angle::Radians(radians)
    }
}

impl FromSpecImpl<Radians> for Angle {
    open spec fn obeys_from_spec() -> bool {
        true
    }

    open spec fn from_spec(radians: Radians) -> Angle {
        Angle::Radians(radians)
    }
}

impl From<Angle> for Degrees {
    fn from(angle: Angle) -> (degrees: Degrees)
        ensures
            degrees == angle.as_degrees(),
    {
        match angle {
            Angle::Degrees(degrees) => degrees,
            Angle::Radians(radians) => Degrees::from(radians),
        }
    }
}

impl FromSpecImpl<Angle> for Degrees {
    open spec fn obeys_from_spec() -> bool {
        true
    }

    open spec fn from_spec(angle: Angle) -> Degrees {
        angle.as_degrees()
    }
}

impl From<Angle> for Radians {
    fn from(angle: Angle) -> (radians: Radians)
        ensures
            radians == angle.as_radians(),
    {
        match angle {
            Angle::Degrees(degrees) => Radians::from(degrees),
            Angle::Radians(radians) => radians,
        }
    }
}

impl FromSpecImpl<Angle> for Radians {
    open spec fn obeys_from_spec() -> bool {
        true
    }

    open spec fn from_spec(angle: Angle) -> Radians {
        angle.as_radians()
    }
}

impl core::ops::Add for Degrees {
    type Output = Self;

    fn add(self, rhs: Self) -> (sum: Self)
        ensures
            sum.0 == saturate(self.0 + rhs.0),
    {
        Degrees(saturate_i64(self.0 as i128 + rhs.0 as i128))
    }
}

impl AddSpecImpl for Degrees {
    open spec fn obeys_add_spec() -> bool {
        true
    }

    open spec fn add_req(self, rhs: Self) -> bool {
        true
    }

    open spec fn add_spec(self, rhs: Self) -> Self {
        Degrees(saturate(self.0 + rhs.0) as i64)
    }
}

impl core::ops::Sub for Degrees {
    type Output = Self;

    fn sub(self, rhs: Self) -> (difference: Self)
        ensures
            difference.0 == saturate(self.0 - rhs.0),
    {
        Degrees(saturate_i64(self.0 as i128 - rhs.0 as i128))
    }
}

impl SubSpecImpl for Degrees {
    open spec fn obeys_sub_spec() -> bool {
        true
    }

    open spec fn sub_req(self, rhs: Self) -> bool {
        true
    }

    open spec fn sub_spec(self, rhs: Self) -> Self {
        Degrees(saturate(self.0 - rhs.0) as i64)
    }
}

impl core::ops::Add for Radians {
    type Output = Self;

    fn add(self, rhs: Self) -> (sum: Self)
        ensures
            sum.0 == saturate(self.0 + rhs.0),
    {
        Radians(saturate_i64(self.0 as i128 + rhs.0 as i128))
    }
}

impl AddSpecImpl for Radians {
    open spec fn obeys_add_spec() -> bool {
        true
    }

    open spec fn add_req(self, rhs: Self) -> bool {
        true
    }

    open spec fn add_spec(self, rhs: Self) -> Self {
        Radians(saturate(self.0 + rhs.0) as i64)
    }
}

impl core::ops::Sub for Radians {
    type Output = Self;

    fn sub(self, rhs: Self) -> (difference: Self)
        ensures
            difference.0 == saturate(self.0 - rhs.0),
    {
        Radians(saturate_i64(self.0 as i128 - rhs.0 as i128))
    }
}

impl SubSpecImpl for Radians {
    open spec fn obeys_sub_spec() -> bool {
        true
    }

    open spec fn sub_req(self, rhs: Self) -> bool {
        true
    }

    open spec fn sub_spec(self, rhs: Self) -> Self {
        Radians(saturate(self.0 - rhs.0) as i64)
    }
}

impl Angle {
    /// The sum in the unit of `self`: the right-hand angle is first brought
    /// into that unit.
    pub open spec fn plus(self, rhs: Angle) -> Angle {
        match self {
            Angle::Degrees(lhs) => Angle::Degrees(
                Degrees(saturate(lhs.0 + rhs.as_degrees().0) as i64),
            ),
            Angle::Radians(lhs) => Angle::Radians(
                Radians(saturate(lhs.0 + rhs.as_radians().0) as i64),
            ),
        }
    }

    /// The difference in the unit of `self`: the right-hand angle is first
    /// brought into that unit.
    pub open spec fn minus(self, rhs: Angle) -> Angle {
        match self {
            Angle::Degrees(lhs) => Angle::Degrees(
                Degrees(saturate(lhs.0 - rhs.as_degrees().0) as i64),
            ),
            Angle::Radians(lhs) => Angle::Radians(
                Radians(saturate(lhs.0 - rhs.as_radians().0) as i64),
            ),
        }
    }
}

impl core::ops::Add for Angle {
    type Output = Self;

    fn add(self, rhs: Self) -> (sum: Self)
        ensures
            sum == self.plus(rhs),
    {
        match self {
            Angle::Degrees(lhs) => Angle::Degrees(lhs + Degrees::from(rhs)),
            Angle::Radians(lhs) => Angle::Radians(lhs + Radians::from(rhs)),
        }
    }
}

impl AddSpecImpl for Angle {
    open spec fn obeys_add_spec() -> bool {
        true
    }

    open spec fn add_req(self, rhs: Self) -> bool {
        true
    }

    open spec fn add_spec(self, rhs: Self) -> Self {
        self.plus(rhs)
    }
}

impl core::ops::Sub for Angle {
    type Output = Self;

    fn sub(self, rhs: Self) -> (difference: Self)
        ensures
            difference == self.minus(rhs),
    {
        match self {
            Angle::Degrees(lhs) => Angle::Degrees(lhs - Degrees::from(rhs)),
            Angle::Radians(lhs) => Angle::Radians(lhs - Radians::from(rhs)),
        }
    }
}

impl SubSpecImpl for Angle {
    open spec fn obeys_sub_spec() -> bool {
        true
    }

    open spec fn sub_req(self, rhs: Self) -> bool {
        true
    }

    open spec fn sub_spec(self, rhs: Self) -> Self {
        self.minus(rhs)
    }
}

/// An angle taken apart into whole degrees, minutes of arc and seconds of arc.
///
/// The fields are free: `new` checks them, and the decomposition of an angle
/// always gives minutes and seconds within their ranges.
#[derive(Debug, Clone, Copy, PartialEq, Eq, PartialOrd, Structural)]
pub struct DegreeMinutesSeconds {
    pub degrees: i32,
    pub minutes: i32,
    /// Seconds of arc, counted in micro-arcseconds.
    pub seconds: i64,
}

/// Minutes or seconds of arc outside the range from 0 up to, not including, 60.
#[derive(Debug, Clone, Copy, PartialEq, Eq, Structural)]
pub struct InvalidAngleComponents;

/// Minutes of arc, and seconds of arc in micro-arcseconds, both in the range
/// from 0 up to, not including, 60.
pub open spec fn components_in_range(minutes: int, seconds: int) -> bool {
    0 <= minutes < 60 && 0 <= seconds < MICROARCSECONDS_PER_MINUTE
}

impl DegreeMinutesSeconds {
    /// Minutes and seconds both lie in the range from 0 up to, not including, 60.
    pub open spec fn in_range(self) -> bool {
        components_in_range(self.minutes as int, self.seconds as int)
    }

    /// The decomposition of a count of micro-arcseconds: the whole degrees are
    /// the floor (saturated to `i32`), the minutes the floor of what is left,
    /// the seconds the rest.
    pub open spec fn of_microarcseconds(value: int) -> DegreeMinutesSeconds {
        let whole = value / (MICROARCSECONDS_PER_DEGREE as int);
        let rest = value % (MICROARCSECONDS_PER_DEGREE as int);
        DegreeMinutesSeconds {
            degrees: if whole < i32::MIN {
                i32::MIN
            } else if whole > i32::MAX {
                i32::MAX
            } else {
                whole as i32
            },
            minutes: (rest / (MICROARCSECONDS_PER_MINUTE as int)) as i32,
            seconds: (rest % (MICROARCSECONDS_PER_MINUTE as int)) as i64,
        }
    }

    /// The decomposition of an angle, taken in degrees.
    pub open spec fn of_angle(angle: Angle) -> DegreeMinutesSeconds {
        Self::of_microarcseconds(angle.as_degrees().0 as int)
    }

    /// The micro-arcseconds that the three fields add up to.
    pub open spec fn microarcseconds(self) -> int {
        self.degrees * MICROARCSECONDS_PER_DEGREE + self.minutes * MICROARCSECONDS_PER_MINUTE
            + self.seconds
    }

    /// The angle in degrees that the three fields add up to, saturated.
    pub open spec fn to_angle(self) -> Angle {
        Angle::Degrees(Degrees(saturate(self.microarcseconds()) as i64))
    }

    /// The seconds of arc rounded to a whole number, a half going to the even
    /// neighbour; the sign is left aside.
    pub open spec fn whole_seconds(self) -> nat {
        let magnitude = if self.seconds < 0 {
            -self.seconds
        } else {
            self.seconds as int
        };
        let whole = magnitude / (MICROARCSECONDS_PER_SECOND as int);
        let rest = magnitude % (MICROARCSECONDS_PER_SECOND as int);
        if 2 * rest > MICROARCSECONDS_PER_SECOND || (2 * rest == MICROARCSECONDS_PER_SECOND && whole
            % 2 == 1) {
            (whole + 1) as nat
        } else {
            whole as nat
        }
    }

    /// The rendering `DD°MM'SS"`: degrees and minutes in at least two digits,
    /// the seconds rounded to a whole number and in at least two digits.
    pub open spec fn text(self) -> Seq<char> {
        two_wide_integer(self.degrees as int) + seq!['\u{b0}'] + two_wide_integer(
            self.minutes as int,
        ) + seq!['\''] + two_wide(self.seconds < 0, self.whole_seconds()) + seq!['"']
    }

    /// Renders the decomposition as `DD°MM'SS"`.
    pub fn to_string(&self) -> (text: String)
        ensures
            text@ == self.text(),
    {
        let magnitude: u64 = if self.seconds < 0 {
            (-(self.seconds as i128)) as u64
        } else {
            self.seconds as u64
        };
        let whole: u64 = magnitude / (MICROARCSECONDS_PER_SECOND as u64);
        let rest: u64 = magnitude % (MICROARCSECONDS_PER_SECOND as u64);
        let rounded: u64 = if 2 * rest > MICROARCSECONDS_PER_SECOND as u64 || (2 * rest
            == MICROARCSECONDS_PER_SECOND as u64 && whole % 2 == 1) {
            whole + 1
        } else {
            whole
        };
        proof {
            reveal_strlit("\u{b0}");
            reveal_strlit("'");
            reveal_strlit("\"");
        }
        let mut text = String::new();
        push_two_wide_integer(&mut text, self.degrees as i64);
        text.append("\u{b0}");
        push_two_wide_integer(&mut text, self.minutes as i64);
        text.append("'");
        push_two_wide(&mut text, self.seconds < 0, rounded);
        text.append("\"");
        proof {
            assert(text@ =~= self.text());
        }
        text
    }

    /// Builds a decomposition from its fields, refusing minutes or seconds
    /// outside their range.
    pub fn new(degrees: i32, minutes: i32, seconds: i64) -> (result: Result<
        DegreeMinutesSeconds,
        InvalidAngleComponents,
    >)
        ensures
            result.is_ok() <==> components_in_range(minutes as int, seconds as int),
            result.is_ok() ==> result.unwrap() == (DegreeMinutesSeconds {
                degrees,
                minutes,
                seconds,
            }),
    {
        if 0 <= minutes && minutes < 60 && 0 <= seconds && seconds < MICROARCSECONDS_PER_MINUTE {
            Ok(DegreeMinutesSeconds { degrees, minutes, seconds })
        } else {
            Err(InvalidAngleComponents)
        }
    }
}

impl From<Angle> for DegreeMinutesSeconds {
    fn from(angle: Angle) -> (dms: DegreeMinutesSeconds)
        ensures
            dms == DegreeMinutesSeconds::of_angle(angle),
            dms.in_range(),
    {
        let value: i64 = Degrees::from(angle).0;
        let (whole, rest) = div_floor(value as i128, MICROARCSECONDS_PER_DEGREE as i128);
        let (minutes, seconds) = div_floor(rest, MICROARCSECONDS_PER_MINUTE as i128);
        let degrees: i32 = if whole < i32::MIN as i128 {
            i32::MIN
        } else if whole > i32::MAX as i128 {
            i32::MAX
        } else {
            whole as i32
        };
        DegreeMinutesSeconds { degrees, minutes: minutes as i32, seconds: seconds as i64 }
    }
}

impl FromSpecImpl<Angle> for DegreeMinutesSeconds {
    open spec fn obeys_from_spec() -> bool {
        true
    }

    open spec fn from_spec(angle: Angle) -> DegreeMinutesSeconds {
        DegreeMinutesSeconds::of_angle(angle)
    }
}

impl From<DegreeMinutesSeconds> for Angle {
    fn from(dms: DegreeMinutesSeconds) -> (angle: Angle)
        ensures
            angle == dms.to_angle(),
    {
        let total: i128 = dms.degrees as i128 * MICROARCSECONDS_PER_DEGREE as i128 + dms.minutes as i128
            * MICROARCSECONDS_PER_MINUTE as i128 + dms.seconds as i128;
        Angle::Degrees(Degrees(saturate_i64(total)))
    }
}

impl FromSpecImpl<DegreeMinutesSeconds> for Angle {
    open spec fn obeys_from_spec() -> bool {
        true
    }

    open spec fn from_spec(dms: DegreeMinutesSeconds) -> Angle {
        dms.to_angle()
    }
}

/// Taking an angle apart gives minutes and seconds within their ranges.
pub proof fn law_decomposition_in_range(angle: Angle)
    ensures
        DegreeMinutesSeconds::of_angle(angle).in_range(),
{
}

/// An angle taken apart and put together again is the same angle in degrees,
/// as long as its whole degrees fit in `i32`.
pub proof fn law_dms_round_trip(angle: Angle)
    requires
        i32::MIN <= angle.as_degrees().0 / MICROARCSECONDS_PER_DEGREE <= i32::MAX,
    ensures
        DegreeMinutesSeconds::of_angle(angle).to_angle() == Angle::Degrees(angle.as_degrees()),
{
}

/// An angle brought into degrees and taken as an angle again is the same
/// angle: itself if it was in degrees, and within two picoradians of itself if
/// it was in radians.
pub proof fn law_round_trip_through_degrees(angle: Angle)
    ensures
        angle is Degrees ==> Angle::Degrees(angle.as_degrees()) == angle,
        -2 <= Angle::Degrees(angle.as_degrees()).as_radians().0 - angle.as_radians().0 <= 2,
{
    match angle {
        Angle::Degrees(_) => {},
        Angle::Radians(radians) => {
            let r = radians.0 as int;
            let d = degrees_of_radians(r);
            lemma_degrees_of_radians_fits(r);
            let back = round_div(d * RATIO_NUM, RATIO_DEN as int);
            lemma_round_div_error(r * RATIO_DEN, RATIO_NUM as int);
            lemma_round_div_error(d * RATIO_NUM, RATIO_DEN as int);
            assert(-2 <= back - r <= 2) by (nonlinear_arith)
                requires
                    -7_853_981_633_974_483 <= 2 * (d * 7_853_981_633_974_483 - r
                        * 1_620_000_000_000_000) <= 7_853_981_633_974_483,
                    -1_620_000_000_000_000 <= 2 * (back * 1_620_000_000_000_000 - d
                        * 7_853_981_633_974_483) <= 1_620_000_000_000_000,
            ;
        },
    }
}

/// An angle brought into radians and taken as an angle again is the same
/// angle: itself if it was in radians, and exactly itself in degrees if it was
/// in degrees, as long as its radians do not saturate.
pub proof fn law_round_trip_through_radians(angle: Angle)
    requires
        angle is Degrees ==> i64::MIN <= round_div(
            angle.as_degrees().0 * RATIO_NUM,
            RATIO_DEN as int,
        ) <= i64::MAX,
    ensures
        angle is Radians ==> Angle::Radians(angle.as_radians()) == angle,
        angle is Degrees ==> Angle::Radians(angle.as_radians()).as_degrees()
            == angle.as_degrees(),
{
    match angle {
        Angle::Degrees(degrees) => {
            let d = degrees.0 as int;
            let r = round_div(d * RATIO_NUM, RATIO_DEN as int);
            lemma_round_div_error(d * RATIO_NUM, RATIO_DEN as int);
            assert(-7_853_981_633_974_483 < 2 * (d * 7_853_981_633_974_483 - r
                * 1_620_000_000_000_000) < 7_853_981_633_974_483);
            lemma_round_div_nearest(r * RATIO_DEN, RATIO_NUM as int, d);
        },
        Angle::Radians(_) => {},
    }
}

/// A sum and a difference are in the unit of the left-hand angle; where both
/// angles are in that unit and nothing saturates, they are the plain sum and
/// difference of the two counts.
pub proof fn law_arithmetic_keeps_left_unit(lhs: Angle, rhs: Angle)
    ensures
        lhs is Degrees <==> lhs.plus(rhs) is Degrees,
        lhs is Degrees <==> lhs.minus(rhs) is Degrees,
        lhs.plus(rhs) == lhs.plus(
            if lhs is Degrees {
                Angle::Degrees(rhs.as_degrees())
            } else {
                Angle::Radians(rhs.as_radians())
            },
        ),
        lhs.minus(rhs) == lhs.minus(
            if lhs is Degrees {
                Angle::Degrees(rhs.as_degrees())
            } else {
                Angle::Radians(rhs.as_radians())
            },
        ),
{
}

} // verus!
