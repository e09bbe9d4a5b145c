//! Element sizes, alignment and the place of an aligned buffer in memory.
use vstd::prelude::*;

verus! {

/// Byte boundary that the start of every buffer handed to a plan keeps.
pub const ALIGNMENT: usize = 16;

/// Floating-point precision of a transform pair: `f32` and its complex
/// counterpart, or `f64` and its complex counterpart.
#[derive(Debug, Clone, Copy, PartialEq, Eq, Structural)]
pub enum Precision {
    Single,
    Double,
}

impl Precision {
    /// Bytes of one real element.
    pub open spec fn spec_real_size(self) -> usize {
        match self {
            Precision::Single => 4,
            Precision::Double => 8,
        }
    }

    /// Bytes of one complex element: two reals.
    pub open spec fn spec_complex_size(self) -> usize {
        match self {
            Precision::Single => 8,
            Precision::Double => 16,
        }
    }

    #[verifier::when_used_as_spec(spec_real_size)]
    pub fn real_size(self) -> (r: usize)
        ensures
            r == self.spec_real_size(),
    {
        match self {
            Precision::Single => 4,
            Precision::Double => 8,
        }
    }

    #[verifier::when_used_as_spec(spec_complex_size)]
    pub fn complex_size(self) -> (r: usize)
        ensures
            r == self.spec_complex_size(),
    {
        match self {
            Precision::Single => 8,
            Precision::Double => 16,
        }
    }
}

/// Where an aligned buffer lies: its start address, its number of
/// elements and its size in bytes.
#[derive(Debug, Clone, Copy, PartialEq, Eq, Structural)]
pub struct Block {
    pub addr: usize,
    pub len: usize,
    pub bytes: usize,
}

impl Block {
    /// One past the last byte of the buffer.
    pub open spec fn end(self) -> int {
        self.addr + self.bytes
    }

    /// The start is non-null and on an `ALIGNMENT` boundary, and the whole
    /// buffer lies inside the address space.
    pub open spec fn placed(self) -> bool {
        &&& self.addr != 0
        &&& self.addr % ALIGNMENT == 0
        &&& self.end() <= usize::MAX
    }

    /// The two buffers share no byte.
    pub open spec fn disjoint(self, other: Block) -> bool {
        self.end() <= other.addr || other.end() <= self.addr
    }

    /// Decides [`Block::disjoint`] for two placed buffers.
    pub fn is_disjoint(&self, other: &Block) -> (r: bool)
        requires
            self.placed(),
            other.placed(),
        ensures
            r == self.disjoint(*other),
    {
        self.addr + self.bytes <= other.addr || other.addr + other.bytes <= self.addr
    }
}

/// Whether an allocator's answer `addr` for `bytes` bytes can hold a buffer:
/// non-null, aligned, and not running past the end of the address space.
pub open spec fn acceptable(addr: usize, bytes: usize) -> bool {
    &&& addr != 0
    &&& addr % ALIGNMENT == 0
    &&& addr + bytes <= usize::MAX
}

/// Decides [`acceptable`].
pub fn is_acceptable(addr: usize, bytes: usize) -> (r: bool)
    ensures
        r == acceptable(addr, bytes),
{
    addr != 0 && addr % ALIGNMENT == 0 && addr <= usize::MAX - bytes
}

/// A native resource that must be given back: a plan handle or the start
/// of an allocated buffer.
#[derive(Debug, Clone, Copy, PartialEq, Eq, Structural)]
pub enum Resource {
    Plan(usize),
    Buffer(usize),
}

} // verus!
