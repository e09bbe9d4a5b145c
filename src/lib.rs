//! Real-to-complex transform pairs over a native FFT library.
//!
//! The library decides how a pair of plans and buffers is set up: the
//! buffer lengths and byte sizes, which allocations are accepted, when a
//! plan handle is fit to keep, and what is released on each exit path.
//! The native calls themselves are made by the caller, one request at a
//! time.
pub mod error;
pub mod flags;
pub mod layout;
pub mod pair;
pub mod plan;
pub mod r2c;

pub use error::{Error, Result};
pub use flags::{
    FFTW_CONSERVE_MEMORY, FFTW_DESTROY_INPUT, FFTW_ESTIMATE, FFTW_EXHAUSTIVE, FFTW_MEASURE,
    FFTW_PATIENT, FFTW_PRESERVE_INPUT, FFTW_UNALIGNED, FFTW_WISDOM_ONLY, FLAG,
};
pub use layout::{Block, Precision, Resource, ALIGNMENT};
pub use pair::{Pair, PairView};
pub use plan::{PlanBuilder, Request, Stage, Step};
pub use r2c::{r2c_1d, R2C1D};
