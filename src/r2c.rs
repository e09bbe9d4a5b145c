//! Settings of a one-dimensional real-to-complex transform.
use vstd::prelude::*;

use crate::flags::{FFTW_MEASURE, FLAG};

verus! {

/// Setting for 1-dimensional R2C transform
#[derive(Debug, Clone, Copy, PartialEq, Eq, Structural)]
pub struct R2C1D {
    n: usize,
    flag: FLAG,
}

impl R2C1D {
    /// The logical size of the transform.
    pub closed spec fn spec_n(&self) -> usize {
        self.n
    }

    /// The planner flags of the transform.
    pub closed spec fn spec_flag(&self) -> FLAG {
        self.flag
    }

    /// Number of complex coefficients of a real signal of length `n`.
    pub open spec fn spec_coef_len(&self) -> usize {
        (self.spec_n() / 2 + 1) as usize
    }

    /// Settings of size `n` with the planner flags `flag`.
    pub fn new(n: usize, flag: FLAG) -> (r: R2C1D)
        ensures
            r.spec_n() == n,
            r.spec_flag() == flag,
    {
        R2C1D { n, flag }
    }

    /// The logical size of the transform.
    #[verifier::when_used_as_spec(spec_n)]
    pub fn n(&self) -> (r: usize)
        ensures
            r == self.spec_n(),
    {
        self.n
    }

    /// The planner flags.
    #[verifier::when_used_as_spec(spec_flag)]
    pub fn flag(&self) -> (r: FLAG)
        ensures
            r == self.spec_flag(),
    {
        self.flag
    }

    /// Length of the coefficient buffer: `n / 2 + 1`.
    #[verifier::when_used_as_spec(spec_coef_len)]
    pub fn coef_len(&self) -> (r: usize)
        ensures
            r == self.spec_coef_len(),
    {
        self.n / 2 + 1
    }
}

/// Utility function to generate 1-dimensional R2C setting
pub fn r2c_1d(n: usize) -> (r: R2C1D)
    ensures
        r.n() == n,
        r.flag() == FFTW_MEASURE,
{
    R2C1D { n, flag: FFTW_MEASURE }
}

} // verus!
