//! The seal that keeps the set of life-cycle states closed.
use vstd::prelude::*;

verus! {

/// Implemented only by the states of this crate.
pub trait Sealed {}

} // verus!
