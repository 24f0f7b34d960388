//! Angles carried with their unit, convertible to degrees or radians.

use vstd::prelude::*;

use crate::fixed::{Fx, smul, FX_PI, SCALE};

verus! {

/// Raw value of pi/180: the factor taking degrees to radians.
pub const FX_DEG_TO_RAD: i64 = 18301;

/// Raw value of 180/pi: the factor taking radians to degrees.
pub const FX_RAD_TO_DEG: i64 = 60078979;

/// The unit an angle amount is expressed in.
#[derive(Clone, Copy, Debug, PartialEq, Eq, Structural)]
pub enum AngleUnits {
    Degrees,
    Radians,
}

/// An angle amount tagged with its unit.
#[derive(Clone, Copy, Debug, PartialEq, Eq, Structural)]
pub struct Angle {
    pub amount: Fx,
    pub units: AngleUnits,
}

/// The angle in radians, on views.
pub open spec fn angle_as_radians(amount: int, units: AngleUnits) -> int {
    match units {
        AngleUnits::Degrees => smul(amount, FX_DEG_TO_RAD as int),
        AngleUnits::Radians => amount,
    }
}

/// The angle in degrees, on views.
pub open spec fn angle_as_degrees(amount: int, units: AngleUnits) -> int {
    match units {
        AngleUnits::Degrees => amount,
        AngleUnits::Radians => smul(amount, FX_RAD_TO_DEG as int),
    }
}

impl Angle {
    /// The amount converted to degrees.
    pub fn as_degrees(&self) -> (r: Fx)
        ensures
            r@ == angle_as_degrees(self.amount@, self.units),
    {
        match self.units {
            AngleUnits::Degrees => self.amount,
            AngleUnits::Radians => self.amount.mul(Fx::from_raw(FX_RAD_TO_DEG)),
        }
    }

    /// The amount converted to radians.
    pub fn as_radians(&self) -> (r: Fx)
        ensures
            r@ == angle_as_radians(self.amount@, self.units),
    {
        match self.units {
            AngleUnits::Degrees => self.amount.mul(Fx::from_raw(FX_DEG_TO_RAD)),
            AngleUnits::Radians => self.amount,
        }
    }
}

} // verus!
