//! Names for the numbers of the library.
use vstd::prelude::*;
use crate::common::fixed::Fixed;

verus! {

/// Pressure in bar.
pub type Pressure = Fixed;

/// Depth in metres.
pub type DepthType = Fixed;

/// A gradient factor in percent.
pub type GradientFactor = u8;

/// Gradient factors `(low, high)` in percent.
pub type GradientFactors = (u8, u8);

/// Pressure in millibar.
pub type MbarPressure = u16;

/// Ascent rate in metres per minute.
pub type AscentRatePerMinute = Fixed;

/// Central nervous system oxygen toxicity in percent.
pub type Cns = Fixed;

/// Oxygen tolerance units.
pub type Otu = Fixed;

#[derive(Clone, Copy, Debug, PartialEq, Eq, Structural)]
pub enum NDLType {
    /// Takes off-gassing during the ascent into account.
    Actual,
    /// The limit is the moment at which a ceiling appears.
    ByCeiling,
}

#[derive(Clone, Copy, Debug, PartialEq, Eq, Structural)]
pub enum CeilingType {
    Actual,
    Adaptive,
}

} // verus!
