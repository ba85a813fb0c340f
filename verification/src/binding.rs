//! The public binding layer: which whole-cache operation to issue, which
//! instruction-set variant is being driven, and where the memory barrier
//! stands.
//!
//! The two variants are selected at build time, never at run time: on the
//! narrower 32-bit variant the cache-maintenance instructions are not
//! ordered with subsequent memory accesses, so the binding layer issues a
//! data-memory barrier immediately after every whole-cache operation; on the
//! 64-bit variant the chosen instructions carry sufficient ordering on their
//! own, no barrier is issued, and the two range-flush operations are
//! additionally available. This asymmetry is deliberate and is pinned down
//! here rather than simplified away.

use vstd::prelude::*;

use crate::cache::CachedMemory;
use crate::model::CacheView;

verus! {

/// The three whole-data-cache maintenance operations.
#[derive(Clone, Copy, Debug, PartialEq, Eq)]
pub enum CacheOp {
    Clean,
    Invalidate,
    CleanAndInvalidate,
}

/// The two mutually exclusive instruction-set variants a build targets.
#[derive(Clone, Copy, Debug, PartialEq, Eq)]
pub enum Arch {
    Arm32,
    Arm64,
}

/// One step of the instruction sequence the binding layer emits.
#[derive(Clone, Copy, Debug, PartialEq, Eq)]
pub enum Step {
    Maintain(CacheOp),
    Barrier,
}

/// Whether a build for `arch` must place a barrier after each whole-cache
/// operation: only the narrower variant needs one.
pub open spec fn barrier_required(arch: Arch) -> bool {
    arch is Arm32
}

/// Whether a build for `arch` exposes the two range-flush operations: only
/// the 64-bit variant has them; the narrower one must fall back to
/// whole-cache operations.
pub open spec fn has_range_flush(arch: Arch) -> bool {
    arch is Arm64
}

/// The effect of one whole-cache operation on the modelled state.
pub open spec fn apply_op(s: CacheView, op: CacheOp) -> CacheView {
    match op {
        CacheOp::Clean => s.after_clean(),
        CacheOp::Invalidate => s.after_invalidate(),
        CacheOp::CleanAndInvalidate => s.after_clean_invalidate(),
    }
}

/// The step sequence a build for `arch` emits for the whole-cache operation
/// `op`: the operation itself, followed by a barrier exactly on the variant
/// that requires one.
pub open spec fn whole_cache_steps(arch: Arch, op: CacheOp) -> Seq<Step> {
    if barrier_required(arch) {
        seq![Step::Maintain(op), Step::Barrier]
    } else {
        seq![Step::Maintain(op)]
    }
}

/// The effect of one emitted step on the modelled state. A barrier orders
/// the issuing core's accesses and moves no data, so on the content model it
/// changes nothing.
pub open spec fn step_effect(s: CacheView, step: Step) -> CacheView {
    match step {
        Step::Maintain(op) => apply_op(s, op),
        Step::Barrier => s,
    }
}

/// The effect of an emitted step sequence, applied left to right.
pub open spec fn steps_effect(s: CacheView, steps: Seq<Step>) -> CacheView
    decreases steps.len(),
{
    if steps.len() == 0 {
        s
    } else {
        steps_effect(step_effect(s, steps[0]), steps.subrange(1, steps.len() as int))
    }
}

/// The step sequence for the whole-cache operation `op` on a build for
/// `arch`, as the binding layer emits it.
pub fn whole_cache_sequence(arch: Arch, op: CacheOp) -> (steps: Vec<Step>)
    ensures
        steps@ == whole_cache_steps(arch, op),
{
    let mut steps: Vec<Step> = Vec::new();
    steps.push(Step::Maintain(op));
    match arch {
        Arch::Arm32 => steps.push(Step::Barrier),
        Arch::Arm64 => {},
    }
    proof {
        assert(steps@ =~= whole_cache_steps(arch, op));
    }
    steps
}

/// The ordering point the binding layer places after a whole-cache
/// operation on the narrower variant: subsequent loads and stores by the
/// issuing core may not be reordered ahead of it. It moves no data, so the
/// modelled content is unchanged.
pub fn data_memory_barrier(c: &mut CachedMemory)
    ensures
        final(c)@ == old(c)@,
{
}

/// Run the whole-cache operation `op` on the model as a build for `arch`
/// would: delegate to the matching routine, then issue the barrier exactly
/// where the variant requires one. Both variants leave the same content
/// behind; they differ in the ordering step alone.
pub fn maintain(c: &mut CachedMemory, arch: Arch, op: CacheOp)
    requires
        old(c)@.wf(),
    ensures
        final(c)@ == apply_op(old(c)@, op),
        final(c)@.wf(),
{
    match op {
        CacheOp::Clean => c.clean(),
        CacheOp::Invalidate => c.invalidate(),
        CacheOp::CleanAndInvalidate => c.cleaninvalidate(),
    }
    match arch {
        Arch::Arm32 => data_memory_barrier(c),
        Arch::Arm64 => {},
    }
}

} // verus!
