//! Time, in seconds or minutes.
use vstd::prelude::*;
use crate::common::fixed::{minus, plus, scaled, times, Fixed, SCALE};

verus! {

/// A duration, held in seconds.
#[derive(Clone, Copy, Debug, PartialEq, Eq, Structural)]
pub struct Time {
    pub s: Fixed,
}

impl Default for Time {
    fn default() -> (r: Self)
        ensures
            r.s == 0,
    {
        Time { s: 0 }
    }
}

impl Time {
    pub open spec fn from_seconds_spec(val: Fixed) -> Time {
        Time { s: val }
    }

    pub open spec fn from_minutes_spec(val: Fixed) -> Time {
        Time { s: times(val, (60 * SCALE) as i64) }
    }

    pub open spec fn as_minutes_spec(&self) -> Fixed {
        scaled(self.s, 1, 60)
    }

    pub open spec fn plus_spec(self, rhs: Time) -> Time {
        Time { s: plus(self.s, rhs.s) }
    }

    pub open spec fn minus_spec(self, rhs: Time) -> Time {
        Time { s: minus(self.s, rhs.s) }
    }

    #[verifier::when_used_as_spec(from_seconds_spec)]
    pub fn from_seconds(val: Fixed) -> (r: Self)
        ensures
            r == Self::from_seconds_spec(val),
    {
        Self { s: val }
    }

    #[verifier::when_used_as_spec(from_minutes_spec)]
    pub fn from_minutes(val: Fixed) -> (r: Self)
        ensures
            r == Self::from_minutes_spec(val),
    {
        Self { s: times(val, 60 * SCALE) }
    }

    pub fn zero() -> (r: Self)
        ensures
            r.s == 0,
    {
        Self { s: 0 }
    }

    pub fn as_seconds(&self) -> (r: Fixed)
        ensures
            r == self.s,
    {
        self.s
    }

    #[verifier::when_used_as_spec(as_minutes_spec)]
    pub fn as_minutes(&self) -> (r: Fixed)
        ensures
            r == self.as_minutes_spec(),
    {
        scaled(self.s, 1, 60)
    }

    /// The saturating sum of two durations.
    #[verifier::when_used_as_spec(plus_spec)]
    pub fn plus(self, rhs: Time) -> (r: Time)
        ensures
            r == self.plus_spec(rhs),
    {
        Time { s: plus(self.s, rhs.s) }
    }

    /// The saturating difference of two durations.
    #[verifier::when_used_as_spec(minus_spec)]
    pub fn minus(self, rhs: Time) -> (r: Time)
        ensures
            r == self.minus_spec(rhs),
    {
        Time { s: minus(self.s, rhs.s) }
    }
}

} // verus!
