//! Simulation twins.
use vstd::prelude::*;

verus! {

/// A value that can hand out simulation twins of itself.
pub trait Sim: Sized {
    fn fork(&self) -> Self;

    fn is_sim(&self) -> bool;
}

} // verus!
