//! What the model is handed of the exponential law of saturation.
use vstd::prelude::*;
use crate::common::fixed::{Fixed, SCALE};
use crate::common::ox_tox::OxygenTerms;

verus! {

/// How far each tissue moves towards the inspired pressure over one fixed
/// span of time: for a half-time `h` and a span `t`, both in minutes, the
/// fraction `1 - 2^(-t / h)`, for nitrogen and for helium.
#[derive(Clone, Copy, Debug, PartialEq, Eq)]
pub struct Saturation {
    pub n2: [Fixed; 16],
    pub he: [Fixed; 16],
}

/// The saturation fractions of the three spans that the model steps by on
/// its own: one second, one minute and five minutes.
#[derive(Clone, Copy, Debug, PartialEq, Eq)]
pub struct Kinetics {
    pub second: Saturation,
    pub minute: Saturation,
    pub five_minutes: Saturation,
}

/// What a record needs from outside the model: the saturation fractions
/// and the oxygen terms that belong to its time, depth and gas.
#[derive(Clone, Copy, Debug, PartialEq, Eq)]
pub struct Exposure {
    pub saturation: Saturation,
    pub oxygen: OxygenTerms,
}

impl Saturation {
    /// Every fraction lies in `[0, 1]`.
    pub open spec fn is_valid_spec(&self) -> bool {
        &&& forall|i: int| 0 <= i < 16 ==> 0 <= (#[trigger] self.n2[i]) <= SCALE
        &&& forall|i: int| 0 <= i < 16 ==> 0 <= (#[trigger] self.he[i]) <= SCALE
    }

    /// No tissue moves: the fractions of a span of no time.
    pub open spec fn is_none(&self) -> bool {
        &&& forall|i: int| 0 <= i < 16 ==> (#[trigger] self.n2[i]) == 0
        &&& forall|i: int| 0 <= i < 16 ==> (#[trigger] self.he[i]) == 0
    }

    /// Every tissue reaches the inspired pressure: the fractions of a span
    /// that is long against every half-time.
    pub open spec fn is_full(&self) -> bool {
        &&& forall|i: int| 0 <= i < 16 ==> (#[trigger] self.n2[i]) == SCALE
        &&& forall|i: int| 0 <= i < 16 ==> (#[trigger] self.he[i]) == SCALE
    }

    pub open spec fn none_spec() -> Saturation {
        Saturation {
            n2: vstd::array::spec_array_fill_for_copy_type::<i64, 16>(0i64),
            he: vstd::array::spec_array_fill_for_copy_type::<i64, 16>(0i64),
        }
    }

    /// The fractions of a span of no time.
    #[verifier::when_used_as_spec(none_spec)]
    pub fn none() -> (r: Self)
        ensures
            r == Saturation::none_spec(),
            r.is_none(),
            r.is_valid_spec(),
    {
        Saturation { n2: [0i64;16], he: [0i64;16] }
    }

    #[verifier::when_used_as_spec(is_valid_spec)]
    pub fn is_valid(&self) -> (r: bool)
        ensures
            r == self.is_valid_spec(),
    {
        let mut i: usize = 0;
        while i < 16
            invariant
                i <= 16,
                forall|j: int| 0 <= j < i ==> 0 <= (#[trigger] self.n2[j]) <= SCALE,
                forall|j: int| 0 <= j < i ==> 0 <= (#[trigger] self.he[j]) <= SCALE,
            decreases 16 - i,
        {
            if self.n2[i] < 0 || self.n2[i] > SCALE || self.he[i] < 0 || self.he[i] > SCALE {
                return false;
            }
            i += 1;
        }
        true
    }
}

impl Exposure {
    /// Saturation fractions with oxygen terms that change nothing: for the
    /// records of a twin, which keeps no oxygen exposure.
    pub open spec fn of_spec(saturation: Saturation) -> Exposure {
        Exposure { saturation, oxygen: OxygenTerms { cns_retention: SCALE, otu_per_minute: 0 } }
    }

    /// The exposure of a record of no time.
    pub open spec fn instant_spec() -> Exposure {
        Exposure::of_spec(Saturation::none_spec())
    }

    #[verifier::when_used_as_spec(of_spec)]
    pub fn of(saturation: Saturation) -> (r: Self)
        ensures
            r == Exposure::of_spec(saturation),
    {
        Exposure { saturation, oxygen: OxygenTerms { cns_retention: SCALE, otu_per_minute: 0 } }
    }

    #[verifier::when_used_as_spec(instant_spec)]
    pub fn instant() -> (r: Self)
        ensures
            r == Exposure::instant_spec(),
    {
        Exposure::of(Saturation::none())
    }
}

impl Kinetics {
    pub open spec fn is_valid_spec(&self) -> bool {
        self.second.is_valid_spec() && self.minute.is_valid_spec()
            && self.five_minutes.is_valid_spec()
    }

    #[verifier::when_used_as_spec(is_valid_spec)]
    pub fn is_valid(&self) -> (r: bool)
        ensures
            r == self.is_valid_spec(),
    {
        self.second.is_valid() && self.minute.is_valid() && self.five_minutes.is_valid()
    }
}

} // verus!
