//! What every decompression model has: settings, their errors, the state
//! of a dive.
use vstd::prelude::*;
use crate::buehlmann::kinetics::Exposure;
use crate::common::deco::{DecoCalculationError, DecoRuntime};
use crate::common::depth::Depth;
use crate::common::gas::Gas;
use crate::common::global_types::{AscentRatePerMinute, CeilingType, Cns, MbarPressure, Otu};
use crate::common::ox_tox::{OxTox, OxygenTerms};
use crate::common::time::Time;

verus! {

#[derive(Clone, Copy, Debug, PartialEq, Eq, Structural)]
pub enum ConfigValidationErrorField {
    SurfacePressure,
    DecoAscentRate,
    CeilingType,
    RoundCeiling,
    GradientFactors,
}

#[allow(non_camel_case_types)]
#[derive(Clone, Copy, Debug, PartialEq, Eq, Structural)]
pub enum ConfigValidationErrorReason {
    InvalidValue,
    OutOfRange,
    /// Gradient factors have to lie between 1 and 100.
    GF_RANGE_ERR_MSG,
    /// The low gradient factor cannot be above the high one.
    GF_ORDER_ERR_MSG,
    /// Surface pressure has to lie between 500 and 1500 millibar.
    SURFACE_PRESSURE_ERR_MSG,
    /// The ascent rate has to lie between 1 and 30 metres per minute.
    DECO_ASCENT_RATE_ERR_MSG,
}

#[derive(Clone, Copy, Debug, PartialEq, Eq, Structural)]
pub struct ConfigValidationErr {
    pub field: ConfigValidationErrorField,
    pub reason: ConfigValidationErrorReason,
}

impl ConfigValidationErr {
    pub fn new(field: ConfigValidationErrorField, reason: ConfigValidationErrorReason) -> (r: Self)
        ensures
            r.field == field,
            r.reason == reason,
    {
        Self { field, reason }
    }
}

/// The settings every decompression model has.
pub trait DecoModelConfig {
    fn validate(&self) -> Result<(), ConfigValidationErr>;

    fn surface_pressure(&self) -> MbarPressure;

    fn deco_ascent_rate(&self) -> AscentRatePerMinute;

    fn ceiling_type(&self) -> CeilingType;

    fn round_ceiling(&self) -> bool;
}

/// Where a dive stands: depth, elapsed time, gas and oxygen exposure.
#[derive(Clone, Copy, Debug, PartialEq, Eq, Structural)]
pub struct DiveState {
    pub depth: Depth,
    pub time: Time,
    pub gas: Gas,
    pub ox_tox: OxTox,
}

/// What a decompression model offers.
pub trait DecoModel: Sized {
    type ConfigType: DecoModelConfig;

    /// The depth at which the dive stands.
    spec fn depth(&self) -> Depth;

    /// The settings of the model.
    fn config(&self) -> Self::ConfigType;

    /// Where the dive stands.
    fn dive_state(&self) -> (r: DiveState)
        ensures
            r.depth == self.depth(),
    ;

    /// Records a time spent at a depth on a gas.
    fn record(&mut self, depth: Depth, time: Time, gas: &Gas, exposure: &Exposure)
        requires
            depth.m >= 0,
        ensures
            final(self).depth() == depth,
    ;

    /// Records a travel to a depth in a given time.
    fn record_travel(
        &mut self,
        target_depth: Depth,
        time: Time,
        gas: &Gas,
        oxygen: &Vec<OxygenTerms>,
    )
        requires
            target_depth.m >= 0,
        ensures
            final(self).depth() == target_depth,
    ;

    /// Records a travel to a depth at a given rate.
    fn record_travel_with_rate(
        &mut self,
        target_depth: Depth,
        rate: AscentRatePerMinute,
        gas: &Gas,
        oxygen: &Vec<OxygenTerms>,
    )
        requires
            target_depth.m >= 0,
        ensures
            final(self).depth() == target_depth,
    ;

    /// The no-decompression limit.
    fn ndl(&self) -> Time
        requires
            self.depth().m >= 0,
    ;

    /// The decompression ceiling.
    fn ceiling(&self) -> (r: Depth)
        ensures
            r.m >= 0,
    ;

    /// The stages of the ascent and the time to surface.
    fn deco(&self, gas_mixes: [Gas; 16]) -> Result<DecoRuntime, DecoCalculationError>
        requires
            self.depth().m >= 0,
    ;

    /// Central nervous system oxygen toxicity.
    fn cns(&self) -> Cns;

    /// Pulmonary oxygen toxicity.
    fn otu(&self) -> Otu;

    /// Whether decompression is owed.
    fn in_deco(&self) -> bool
        requires
            self.depth().m >= 0,
    ;
}

} // verus!
