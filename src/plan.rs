//! Setting up a transform pair, one native request at a time.
//!
//! The caller asks a [`PlanBuilder`] for its [`Request`], performs it
//! (an aligned allocation or a native planner call), and hands the pointer
//! that came back to [`PlanBuilder::step`]; a null pointer is `0`. The
//! buffers are allocated before any plan is built, since a plan binds to
//! their addresses.
use vstd::prelude::*;

use crate::error::Error;
use crate::flags::FLAG;
use crate::layout::{acceptable, is_acceptable, Block, Precision, Resource, ALIGNMENT};
use crate::pair::{Pair, PairView};
use crate::r2c::R2C1D;

verus! {

/// How far the set-up has come, with what it holds so far.
#[derive(Debug, Clone, Copy, PartialEq, Eq, Structural)]
pub enum Stage {
    /// The real buffer is to be allocated.
    Field,
    /// The complex buffer is to be allocated.
    Coef { field: Block },
    /// The real-to-complex plan is to be built.
    Forward { field: Block, coef: Block },
    /// The complex-to-real plan is to be built; `forward` is what the
    /// planner returned for the other direction, perhaps null.
    Backward { field: Block, coef: Block, forward: usize },
}

/// The next native operation that set-up needs.
#[derive(Debug, Clone, Copy, PartialEq, Eq, Structural)]
pub enum Request {
    /// Allocate `bytes` bytes starting on an `align` boundary.
    Allocate { bytes: usize, align: usize },
    /// Build a real-to-complex plan of size `n` from `real` into `complex`.
    PlanR2C { n: usize, real: usize, complex: usize, flag: FLAG },
    /// Build a complex-to-real plan of size `n` from `complex` into `real`.
    PlanC2R { n: usize, complex: usize, real: usize, flag: FLAG },
}

/// What a [`PlanBuilder`] holds, as plain values.
#[derive(Debug, Clone, Copy, PartialEq, Eq, Structural)]
pub struct BuilderView {
    pub settings: R2C1D,
    pub precision: Precision,
    pub field_bytes: usize,
    pub coef_bytes: usize,
    pub stage: Stage,
}

/// The real buffer for `settings`: `n` reals at an accepted address.
pub open spec fn field_block(b: BuilderView, blk: Block) -> bool {
    &&& blk.placed()
    &&& blk.len == b.settings.n()
    &&& blk.bytes == b.field_bytes
}

/// The complex buffer for `settings`: `n / 2 + 1` complex values at an
/// accepted address.
pub open spec fn coef_block(b: BuilderView, blk: Block) -> bool {
    &&& blk.placed()
    &&& blk.len == b.settings.spec_coef_len()
    &&& blk.bytes == b.coef_bytes
}

/// The buffer to give back for an allocator's answer: none for null.
pub open spec fn released_buffer(addr: usize) -> Seq<Resource> {
    if addr == 0 {
        seq![]
    } else {
        seq![Resource::Buffer(addr)]
    }
}

/// The plan to give back for a planner's answer: none for null.
pub open spec fn released_plan(handle: usize) -> Seq<Resource> {
    if handle == 0 {
        seq![]
    } else {
        seq![Resource::Plan(handle)]
    }
}

impl BuilderView {
    pub open spec fn wf(self) -> bool {
        &&& self.settings.n() >= 1
        &&& self.field_bytes == self.settings.n() * self.precision.spec_real_size()
        &&& self.coef_bytes == self.settings.spec_coef_len()
            * self.precision.spec_complex_size()
        &&& match self.stage {
            Stage::Field => true,
            Stage::Coef { field } => field_block(self, field),
            Stage::Forward { field, coef } => {
                &&& field_block(self, field)
                &&& coef_block(self, coef)
                &&& field.disjoint(coef)
            },
            Stage::Backward { field, coef, forward } => {
                &&& field_block(self, field)
                &&& coef_block(self, coef)
                &&& field.disjoint(coef)
            },
        }
    }

    pub open spec fn with_stage(self, stage: Stage) -> BuilderView {
        BuilderView {
            settings: self.settings,
            precision: self.precision,
            field_bytes: self.field_bytes,
            coef_bytes: self.coef_bytes,
            stage,
        }
    }
}

/// Sets up one transform pair from its settings.
#[derive(Debug)]
pub struct PlanBuilder {
    settings: R2C1D,
    precision: Precision,
    field_bytes: usize,
    coef_bytes: usize,
    stage: Stage,
}

impl View for PlanBuilder {
    type V = BuilderView;

    closed spec fn view(&self) -> BuilderView {
        BuilderView {
            settings: self.settings,
            precision: self.precision,
            field_bytes: self.field_bytes,
            coef_bytes: self.coef_bytes,
            stage: self.stage,
        }
    }
}

/// Where set-up stands after one answer.
#[derive(Debug)]
pub enum Step {
    /// More requests follow.
    Pending(PlanBuilder),
    /// Both buffers and both plans stand.
    Built(Pair),
    /// Set-up failed; `release` lists what was acquired, to give back in
    /// order.
    Failed { error: Error, release: Vec<Resource> },
}

fn push_buffer(v: &mut Vec<Resource>, addr: usize)
    ensures
        final(v)@ == old(v)@ + released_buffer(addr),
{
    if addr != 0 {
        v.push(Resource::Buffer(addr));
    }
    proof {
        assert(final(v)@ =~= old(v)@ + released_buffer(addr));
    }
}

fn push_plan(v: &mut Vec<Resource>, handle: usize)
    ensures
        final(v)@ == old(v)@ + released_plan(handle),
{
    if handle != 0 {
        v.push(Resource::Plan(handle));
    }
    proof {
        assert(final(v)@ =~= old(v)@ + released_plan(handle));
    }
}

impl PlanBuilder {
    fn with_stage(&self, stage: Stage) -> (r: PlanBuilder)
        ensures
            r@ == self@.with_stage(stage),
    {
        PlanBuilder {
            settings: self.settings,
            precision: self.precision,
            field_bytes: self.field_bytes,
            coef_bytes: self.coef_bytes,
            stage,
        }
    }

    /// The native operation to perform next.
    pub fn request(&self) -> (r: Request)
        ensures
            r == match self@.stage {
                Stage::Field => Request::Allocate { bytes: self@.field_bytes, align: ALIGNMENT },
                Stage::Coef { .. } => Request::Allocate {
                    bytes: self@.coef_bytes,
                    align: ALIGNMENT,
                },
                Stage::Forward { field, coef } => Request::PlanR2C {
                    n: self@.settings.n(),
                    real: field.addr,
                    complex: coef.addr,
                    flag: self@.settings.flag(),
                },
                Stage::Backward { field, coef, .. } => Request::PlanC2R {
                    n: self@.settings.n(),
                    complex: coef.addr,
                    real: field.addr,
                    flag: self@.settings.flag(),
                },
            },
    {
        match self.stage {
            Stage::Field => Request::Allocate { bytes: self.field_bytes, align: ALIGNMENT },
            Stage::Coef { .. } => Request::Allocate { bytes: self.coef_bytes, align: ALIGNMENT },
            Stage::Forward { field, coef } => Request::PlanR2C {
                n: self.settings.n(),
                real: field.addr,
                complex: coef.addr,
                flag: self.settings.flag(),
            },
            Stage::Backward { field, coef, .. } => Request::PlanC2R {
                n: self.settings.n(),
                complex: coef.addr,
                real: field.addr,
                flag: self.settings.flag(),
            },
        }
    }

    /// Takes the pointer that the last request returned (`0` for null) and
    /// decides what follows.
    ///
    /// An allocation is kept when it is [`acceptable`] and, for the complex
    /// buffer, shares no byte with the real one; otherwise set-up fails with
    /// `Error::Allocation`. Both plans are requested; if either comes back
    /// null, set-up fails with `Error::PlanConstruction`. A failure lists
    /// every non-null thing acquired, plans before buffers.
    pub fn step(self, answer: usize) -> (r: Step)
        requires
            self@.wf(),
        ensures
            match self@.stage {
                Stage::Field => {
                    let blk = Block {
                        addr: answer,
                        len: self@.settings.n(),
                        bytes: self@.field_bytes,
                    };
                    if acceptable(answer, self@.field_bytes) {
                        &&& r matches Step::Pending(b)
                        &&& b@ == self@.with_stage(Stage::Coef { field: blk })
                        &&& b@.wf()
                    } else {
                        &&& r matches Step::Failed { error, release }
                        &&& error == Error::Allocation
                        &&& release@ == released_buffer(answer)
                    }
                },
                Stage::Coef { field } => {
                    let blk = Block {
                        addr: answer,
                        len: self@.settings.coef_len(),
                        bytes: self@.coef_bytes,
                    };
                    if acceptable(answer, self@.coef_bytes) && field.disjoint(blk) {
                        &&& r matches Step::Pending(b)
                        &&& b@ == self@.with_stage(Stage::Forward { field, coef: blk })
                        &&& b@.wf()
                    } else {
                        &&& r matches Step::Failed { error, release }
                        &&& error == Error::Allocation
                        &&& release@ == seq![Resource::Buffer(field.addr)] + released_buffer(
                            answer,
                        )
                    }
                },
                Stage::Forward { field, coef } => {
                    &&& r matches Step::Pending(b)
                    &&& b@ == self@.with_stage(Stage::Backward { field, coef, forward: answer })
                    &&& b@.wf()
                },
                Stage::Backward { field, coef, forward } => {
                    if forward != 0 && answer != 0 {
                        &&& r matches Step::Built(p)
                        &&& p@ == (PairView {
                            logical_size: self@.settings.n(),
                            precision: self@.precision,
                            flag: self@.settings.flag(),
                            field,
                            coef,
                            forward,
                            backward: answer,
                        })
                        &&& p@.wf()
                        &&& p@.built_from(self@.settings, self@.precision)
                    } else {
                        &&& r matches Step::Failed { error, release }
                        &&& error == Error::PlanConstruction
                        &&& release@ == released_plan(forward) + released_plan(answer) + seq![
                            Resource::Buffer(field.addr),
                            Resource::Buffer(coef.addr),
                        ]
                    }
                },
            },
    {
        match self.stage {
            Stage::Field => {
                if is_acceptable(answer, self.field_bytes) {
                    let blk = Block { addr: answer, len: self.settings.n(), bytes: self.field_bytes };
                    Step::Pending(self.with_stage(Stage::Coef { field: blk }))
                } else {
                    let mut release: Vec<Resource> = Vec::new();
                    push_buffer(&mut release, answer);
                    proof {
                        assert(release@ =~= released_buffer(answer));
                    }
                    Step::Failed { error: Error::Allocation, release }
                }
            },
            Stage::Coef { field } => {
                let blk = Block {
                    addr: answer,
                    len: self.settings.coef_len(),
                    bytes: self.coef_bytes,
                };
                if is_acceptable(answer, self.coef_bytes) && field.is_disjoint(&blk) {
                    Step::Pending(self.with_stage(Stage::Forward { field, coef: blk }))
                } else {
                    let mut release: Vec<Resource> = Vec::new();
                    release.push(Resource::Buffer(field.addr));
                    push_buffer(&mut release, answer);
                    Step::Failed { error: Error::Allocation, release }
                }
            },
            Stage::Forward { field, coef } => {
                Step::Pending(self.with_stage(Stage::Backward { field, coef, forward: answer }))
            },
            Stage::Backward { field, coef, forward } => {
                if forward != 0 && answer != 0 {
                    let v = PairView {
                        logical_size: self.settings.n(),
                        precision: self.precision,
                        flag: self.settings.flag(),
                        field,
                        coef,
                        forward,
                        backward: answer,
                    };
                    Step::Built(Pair::assemble(v))
                } else {
                    let mut release: Vec<Resource> = Vec::new();
                    push_plan(&mut release, forward);
                    push_plan(&mut release, answer);
                    release.push(Resource::Buffer(field.addr));
                    release.push(Resource::Buffer(coef.addr));
                    proof {
                        assert(release@ =~= released_plan(forward) + released_plan(answer) + seq![
                            Resource::Buffer(field.addr),
                            Resource::Buffer(coef.addr),
                        ]);
                    }
                    Step::Failed { error: Error::PlanConstruction, release }
                }
            },
        }
    }
}

/// Whether both buffers of `settings` have byte sizes that fit in `usize`.
pub open spec fn sizes_fit(settings: R2C1D, precision: Precision) -> bool {
    &&& settings.n() * precision.spec_real_size() <= usize::MAX
    &&& settings.spec_coef_len() * precision.spec_complex_size() <= usize::MAX
}

impl R2C1D {
    /// Starts setting up a transform pair from these settings.
    ///
    /// Fails with `Error::InvalidSize` for `n == 0`, and with
    /// `Error::Allocation` where a buffer's byte size does not fit in `usize`.
    /// Otherwise the builder first asks for the real buffer.
    pub fn pair_builder(&self, precision: Precision) -> (r: Result<PlanBuilder, Error>)
        ensures
            self.n() == 0 ==> r == Err::<PlanBuilder, Error>(Error::InvalidSize),
            self.n() != 0 && !sizes_fit(*self, precision) ==> r == Err::<PlanBuilder, Error>(
                Error::Allocation,
            ),
            self.n() != 0 && sizes_fit(*self, precision) ==> {
                &&& r matches Ok(b)
                &&& b@ == (BuilderView {
                    settings: *self,
                    precision,
                    field_bytes: (self.n() * precision.spec_real_size()) as usize,
                    coef_bytes: (self.coef_len() * precision.spec_complex_size()) as usize,
                    stage: Stage::Field,
                })
                &&& b@.wf()
            },
    {
        let n = self.n();
        if n == 0 {
            return Err(Error::InvalidSize);
        }
        let field_bytes = match n.checked_mul(precision.real_size()) {
            Some(b) => b,
            None => return Err(Error::Allocation),
        };
        let coef_bytes = match self.coef_len().checked_mul(precision.complex_size()) {
            Some(b) => b,
            None => return Err(Error::Allocation),
        };
        Ok(PlanBuilder { settings: *self, precision, field_bytes, coef_bytes, stage: Stage::Field })
    }
}

} // verus!
