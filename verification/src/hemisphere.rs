//! Hemisphere of latitudes (northern or southern) and of longitudes (eastern
//! or western).

use vstd::prelude::*;
use vstd::string::*;

verus! {

/// Northern or southern hemisphere.
#[derive(Debug, Clone, Copy, PartialEq, Eq, PartialOrd, Structural)]
pub enum Latitude {
    North,
    South,
}

/// Eastern or western hemisphere.
#[derive(Debug, Clone, Copy, PartialEq, Eq, PartialOrd, Structural)]
pub enum Longitude {
    East,
    West,
}

impl Latitude {
    /// The name of the hemisphere.
    pub open spec fn label(self) -> Seq<char> {
        match self {
            Latitude::North => "North"@,
            Latitude::South => "South"@,
        }
    }

    /// The name of the hemisphere as text.
    pub fn to_string(&self) -> (text: String)
        ensures
            text@ == self.label(),
    {
        match self {
            Latitude::North => String::from_str("North"),
            Latitude::South => String::from_str("South"),
        }
    }
}

impl Longitude {
    /// The name of the hemisphere.
    pub open spec fn label(self) -> Seq<char> {
        match self {
            Longitude::East => "East"@,
            Longitude::West => "West"@,
        }
    }

    /// The name of the hemisphere as text.
    pub fn to_string(&self) -> (text: String)
        ensures
            text@ == self.label(),
    {
        match self {
            Longitude::East => String::from_str("East"),
            Longitude::West => String::from_str("West"),
        }
    }
}

} // verus!
