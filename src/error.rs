//! Failures of setting up a transform pair.
use vstd::prelude::*;

verus! {

/// Why a transform pair could not be set up.
#[derive(Debug, Clone, Copy, PartialEq, Eq, Structural)]
pub enum Error {
    /// The logical size is zero.
    InvalidSize,
    /// A buffer could not be allocated at the required alignment, or its
    /// byte size does not fit in the address space.
    Allocation,
    /// The native planner returned a null plan.
    PlanConstruction,
}

/// Result of setting up a transform pair.
pub type Result<T> = core::result::Result<T, Error>;

} // verus!
