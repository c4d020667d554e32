//! Depth, in metres or feet.
use vstd::prelude::*;
use crate::common::fixed::{minus, plus, times, Fixed};
use crate::common::global_types::DepthType;

verus! {

#[derive(Clone, Copy, Debug, PartialEq, Eq, Structural)]
pub enum Units {
    Metric,
    Imperial,
}

/// A quantity that can be given and read in either system of units.
pub trait Unit<T>: Sized {
    fn from_units(val: T, units: Units) -> Self;

    fn to_units(&self, units: Units) -> T;

    fn base_unit(&self) -> T;
}

/// Feet in one metre.
pub const FEET_PER_METER: Fixed = 3_280_840_000;

/// Metres in one foot.
pub const METERS_PER_FOOT: Fixed = 304_800_000;

/// A depth, held in metres.
#[derive(Clone, Copy, Debug, PartialEq, Eq, Structural)]
pub struct Depth {
    pub m: DepthType,
}

impl Default for Depth {
    fn default() -> (r: Self)
        ensures
            r.m == 0,
    {
        Depth { m: 0 }
    }
}

impl Depth {
    pub open spec fn from_meters_spec(val: DepthType) -> Depth {
        Depth { m: val }
    }

    pub open spec fn from_feet_spec(val: DepthType) -> Depth {
        Depth { m: times(val, METERS_PER_FOOT) }
    }

    pub open spec fn as_feet_spec(&self) -> DepthType {
        times(self.m, FEET_PER_METER)
    }

    pub open spec fn plus_spec(self, rhs: Depth) -> Depth {
        Depth { m: plus(self.m, rhs.m) }
    }

    pub open spec fn minus_spec(self, rhs: Depth) -> Depth {
        Depth { m: minus(self.m, rhs.m) }
    }

    pub fn zero() -> (r: Self)
        ensures
            r.m == 0,
    {
        Self { m: 0 }
    }

    #[verifier::when_used_as_spec(from_meters_spec)]
    pub fn from_meters(val: DepthType) -> (r: Self)
        ensures
            r == Self::from_meters_spec(val),
    {
        Self { m: val }
    }

    #[verifier::when_used_as_spec(from_feet_spec)]
    pub fn from_feet(val: DepthType) -> (r: Self)
        ensures
            r == Self::from_feet_spec(val),
    {
        Self { m: Self::ft_to_m(val) }
    }

    pub fn as_meters(&self) -> (r: DepthType)
        ensures
            r == self.m,
    {
        self.m
    }

    #[verifier::when_used_as_spec(as_feet_spec)]
    pub fn as_feet(&self) -> (r: DepthType)
        ensures
            r == self.as_feet_spec(),
    {
        Self::m_to_ft(self.m)
    }

    /// The saturating sum of two depths.
    #[verifier::when_used_as_spec(plus_spec)]
    pub fn plus(self, rhs: Depth) -> (r: Depth)
        ensures
            r == self.plus_spec(rhs),
    {
        Depth { m: plus(self.m, rhs.m) }
    }

    /// The saturating difference of two depths.
    #[verifier::when_used_as_spec(minus_spec)]
    pub fn minus(self, rhs: Depth) -> (r: Depth)
        ensures
            r == self.minus_spec(rhs),
    {
        Depth { m: minus(self.m, rhs.m) }
    }

    fn m_to_ft(m: DepthType) -> (r: DepthType)
        ensures
            r == times(m, FEET_PER_METER),
    {
        times(m, FEET_PER_METER)
    }

    fn ft_to_m(ft: DepthType) -> (r: DepthType)
        ensures
            r == times(ft, METERS_PER_FOOT),
    {
        times(ft, METERS_PER_FOOT)
    }
}

impl Unit<DepthType> for Depth {
    fn from_units(val: DepthType, units: Units) -> (r: Self)
        ensures
            r == match units {
                Units::Metric => Depth::from_meters_spec(val),
                Units::Imperial => Depth::from_feet_spec(val),
            },
    {
        match units {
            Units::Metric => Self::from_meters(val),
            Units::Imperial => Self::from_feet(val),
        }
    }

    fn to_units(&self, units: Units) -> (r: DepthType)
        ensures
            r == match units {
                Units::Metric => self.m,
                Units::Imperial => self.as_feet_spec(),
            },
    {
        match units {
            Units::Metric => self.as_meters(),
            Units::Imperial => self.as_feet(),
        }
    }

    fn base_unit(&self) -> (r: DepthType)
        ensures
            r == self.m,
    {
        self.m
    }
}

} // verus!
