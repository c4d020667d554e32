//! A segment of a dive.
use vstd::prelude::*;
use crate::common::depth::Depth;
use crate::common::gas::Gas;
use crate::common::time::Time;

verus! {

/// One segment of a dive: a time spent at a depth on a gas.
#[derive(Clone, Copy, Debug, PartialEq, Eq, Structural)]
pub struct RecordData {
    pub depth: Depth,
    pub time: Time,
    pub gas: Gas,
}

} // verus!
