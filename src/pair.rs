//! A transform pair: two aligned buffers and the two plans bound to them.
use vstd::prelude::*;

use crate::flags::FLAG;
use crate::layout::{Block, Precision, Resource, ALIGNMENT};
use crate::r2c::R2C1D;

verus! {

/// What a [`Pair`] holds, as plain values.
#[derive(Debug, Clone, Copy, PartialEq, Eq, Structural)]
pub struct PairView {
    pub logical_size: usize,
    pub precision: Precision,
    pub flag: FLAG,
    pub field: Block,
    pub coef: Block,
    pub forward: usize,
    pub backward: usize,
}

impl PairView {
    /// A pair fit to execute: a real buffer of `logical_size` elements and a
    /// complex buffer of `logical_size / 2 + 1`, both placed on the
    /// alignment boundary and sharing no byte, and two non-null plans.
    pub open spec fn wf(self) -> bool {
        &&& self.logical_size >= 1
        &&& self.field.len == self.logical_size
        &&& self.coef.len == self.logical_size / 2 + 1
        &&& self.field.bytes == self.field.len * self.precision.spec_real_size()
        &&& self.coef.bytes == self.coef.len * self.precision.spec_complex_size()
        &&& self.field.placed()
        &&& self.coef.placed()
        &&& self.field.disjoint(self.coef)
        &&& self.forward != 0
        &&& self.backward != 0
    }

    /// The pair was set up from `settings` at `precision`.
    pub open spec fn built_from(self, settings: R2C1D, precision: Precision) -> bool {
        &&& self.logical_size == settings.n()
        &&& self.flag == settings.flag()
        &&& self.precision == precision
    }
}

/// Owns a real buffer (`field`), a complex buffer (`coef`) and the forward
/// and backward plans bound to their addresses. Nothing here moves or
/// replaces a buffer once the plans exist.
#[derive(Debug)]
pub struct Pair {
    logical_size: usize,
    precision: Precision,
    flag: FLAG,
    field: Block,
    coef: Block,
    forward: usize,
    backward: usize,
}

impl View for Pair {
    type V = PairView;

    closed spec fn view(&self) -> PairView {
        PairView {
            logical_size: self.logical_size,
            precision: self.precision,
            flag: self.flag,
            field: self.field,
            coef: self.coef,
            forward: self.forward,
            backward: self.backward,
        }
    }
}

impl Pair {
    pub(crate) fn assemble(v: PairView) -> (r: Pair)
        ensures
            r@ == v,
    {
        Pair {
            logical_size: v.logical_size,
            precision: v.precision,
            flag: v.flag,
            field: v.field,
            coef: v.coef,
            forward: v.forward,
            backward: v.backward,
        }
    }

    /// The logical transform length `n`.
    pub fn logical_size(&self) -> (r: usize)
        ensures
            r == self@.logical_size,
    {
        self.logical_size
    }

    pub fn precision(&self) -> (r: Precision)
        ensures
            r == self@.precision,
    {
        self.precision
    }

    pub fn flag(&self) -> (r: FLAG)
        ensures
            r == self@.flag,
    {
        self.flag
    }

    /// The real buffer, read by the forward plan and written by the
    /// backward one.
    pub fn field(&self) -> (r: Block)
        ensures
            r == self@.field,
    {
        self.field
    }

    /// The complex buffer, written by the forward plan and read by the
    /// backward one.
    pub fn coef(&self) -> (r: Block)
        ensures
            r == self@.coef,
    {
        self.coef
    }

    /// Handle of the real-to-complex plan.
    pub fn forward_plan(&self) -> (r: usize)
        ensures
            r == self@.forward,
    {
        self.forward
    }

    /// Handle of the complex-to-real plan.
    pub fn backward_plan(&self) -> (r: usize)
        ensures
            r == self@.backward,
    {
        self.backward
    }

    /// What to give back when the pair is dropped, in order: both plans
    /// first, then both buffers.
    pub fn release_order(&self) -> (r: Vec<Resource>)
        ensures
            r@ == seq![
                Resource::Plan(self@.forward),
                Resource::Plan(self@.backward),
                Resource::Buffer(self@.field.addr),
                Resource::Buffer(self@.coef.addr),
            ],
    {
        vec![
            Resource::Plan(self.forward),
            Resource::Plan(self.backward),
            Resource::Buffer(self.field.addr),
            Resource::Buffer(self.coef.addr),
        ]
    }
}

/// A pair set up from settings of size `n` has a real buffer of `n` elements
/// and exactly `n / 2 + 1` complex coefficients.
pub proof fn lemma_coef_len(settings: R2C1D, precision: Precision, p: PairView)
    requires
        p.wf(),
        p.built_from(settings, precision),
    ensures
        settings.n() >= 1,
        p.field.len == settings.n(),
        p.coef.len == settings.n() / 2 + 1,
{
}

/// Both buffers of a pair start on the alignment boundary.
pub proof fn lemma_buffers_aligned(p: PairView)
    requires
        p.wf(),
    ensures
        p.field.addr % ALIGNMENT == 0,
        p.coef.addr % ALIGNMENT == 0,
        p.field.addr != 0,
        p.coef.addr != 0,
{
}

/// Two pairs set up from the same settings at the same precision have the
/// same lengths, byte sizes and flags; in each, the real and the complex
/// buffer share no byte.
pub proof fn lemma_same_settings(settings: R2C1D, precision: Precision, p: PairView, q: PairView)
    requires
        p.wf(),
        q.wf(),
        p.built_from(settings, precision),
        q.built_from(settings, precision),
    ensures
        p.logical_size == q.logical_size,
        p.flag == q.flag,
        p.field.len == q.field.len,
        p.coef.len == q.coef.len,
        p.field.bytes == q.field.bytes,
        p.coef.bytes == q.coef.bytes,
        p.field.disjoint(p.coef),
        q.field.disjoint(q.coef),
{
}

} // verus!
