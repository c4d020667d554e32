//! Decompression planning on the Buehlmann ZH-L16C model with gradient
//! factors, in saturating fixed-point arithmetic.
//!
//! Depths are in metres, times in seconds, pressures in bar, each held as a
//! count of billionths. What needs a power function (how far a tissue
//! saturates in a given time, how fast oxygen exposure grows or decays) is
//! handed in by the caller as plain numbers.
pub mod buehlmann;
pub mod common;

pub use buehlmann::buehlmann_config::BuehlmannConfig;
pub use buehlmann::buehlmann_model::{BuehlmannModel, BuehlmannState};
pub use buehlmann::compartment::{Compartment, Supersaturation};
pub use buehlmann::kinetics::{Exposure, Kinetics, Saturation};
pub use buehlmann::zhl_values::{zhl_16c_n2_16a_he_values, ZHLParams};
pub use common::cns_table::{cns_coefficients, CNSCoeffRow};
pub use common::deco::{
    Deco, DecoAction, DecoCalculationError, DecoRuntime, DecoStage, DecoStageType,
    MissedDecoStopViolation, MAX_DECO_STAGE, MAX_GASSES,
};
pub use common::deco_model::{
    ConfigValidationErr, ConfigValidationErrorField, ConfigValidationErrorReason, DecoModel,
    DecoModelConfig, DiveState,
};
pub use common::depth::{Depth, Unit, Units};
pub use common::fixed::{Fixed, SCALE};
pub use common::gas::{Gas, InertGas, PartialPressures};
pub use common::global_types::{
    AscentRatePerMinute, CeilingType, Cns, DepthType, GradientFactor, GradientFactors,
    MbarPressure, NDLType, Otu, Pressure,
};
pub use common::ox_tox::{OxTox, OxygenTerms};
pub use common::record::RecordData;
pub use common::sim::Sim;
pub use common::time::Time;
