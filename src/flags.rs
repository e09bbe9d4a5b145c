//! Planning flags understood by the native planner.
use vstd::prelude::*;

verus! {

/// A set of planner flags, combined with `|`.
#[allow(non_camel_case_types)]
pub type FLAG = u32;

/// Times candidate algorithms while planning and keeps the fastest.
pub const FFTW_MEASURE: FLAG = 0;

/// Lets the plan overwrite its input buffer.
pub const FFTW_DESTROY_INPUT: FLAG = 1;

/// Makes no assumption on the alignment of the buffers at execution.
pub const FFTW_UNALIGNED: FLAG = 2;

/// Prefers algorithms that use less scratch memory.
pub const FFTW_CONSERVE_MEMORY: FLAG = 4;

/// Searches the widest set of algorithms while planning.
pub const FFTW_EXHAUSTIVE: FLAG = 8;

/// Keeps the input buffer unchanged.
pub const FFTW_PRESERVE_INPUT: FLAG = 16;

/// Searches more algorithms than `FFTW_MEASURE`.
pub const FFTW_PATIENT: FLAG = 32;

/// Picks a plan by heuristics, without timing anything.
pub const FFTW_ESTIMATE: FLAG = 64;

/// Builds a plan only from stored wisdom.
pub const FFTW_WISDOM_ONLY: FLAG = 2097152;

} // verus!
