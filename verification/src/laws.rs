//! The guarantees callers rely on, stated over the model and proved once
//! for every state: content preservation, idempotence, range bounding, the
//! ordering scenario behind `clean`, the empty-range convention, and the
//! per-variant barrier placement.

use vstd::prelude::*;

use crate::binding::{
    apply_op, barrier_required, has_range_flush, steps_effect, whole_cache_steps, Arch, CacheOp,
    Step,
};
use crate::model::{CacheView, Line};

verus! {

/// Every whole-cache operation preserves the logical content of memory for
/// correctly synchronized readers: the owning core reads the same bytes
/// afterwards, and after a clean (plain or with invalidate) a non-cached
/// observer reads exactly those bytes too. An invalidate leaves main memory
/// untouched, and preserves the core's view provided no dirty line exists —
/// the stated obligation of its callers, since it discards unwritten data.
pub proof fn lemma_whole_op_preserves_content(s: CacheView, op: CacheOp)
    requires
        s.wf(),
        op is Invalidate ==> s.no_dirty_lines(),
    ensures
        apply_op(s, op).wf(),
        apply_op(s, op).data_view() == s.data_view(),
        op is Clean || op is CleanAndInvalidate ==> apply_op(s, op).memory == s.data_view(),
        op is Invalidate ==> apply_op(s, op).memory == s.memory,
{
    let t = apply_op(s, op);
    assert forall|i: int| 0 <= i < s.memory.len() implies t.data_at(i) == s.data_at(i) by {
        assert(s.dcache[i] == s.dcache[i]);
        if op is Invalidate {
            assert(!s.line_dirty(i));
        }
    }
    assert(t.data_view() =~= s.data_view());
    if op is Clean || op is CleanAndInvalidate {
        assert forall|i: int| 0 <= i < s.memory.len() implies t.memory[i] == s.data_at(i) by {
            assert(s.dcache[i] == s.dcache[i]);
        }
        assert(t.memory =~= s.data_view());
    }
    assert forall|i: int|
        0 <= i < t.memory.len() implies (#[trigger] t.dcache[i] matches Line::Held {
        value,
        dirty: false,
    } ==> value == t.memory[i]) by {
        assert(s.dcache[i] == s.dcache[i]);
    }
}

/// Idempotence: issuing the same whole-cache operation twice in succession
/// leaves exactly the state that issuing it once leaves. After a clean
/// nothing is dirty, so a second clean writes nothing back; after an
/// invalidate nothing is held, so a second one drops nothing.
pub proof fn lemma_whole_op_idempotent(s: CacheView, op: CacheOp)
    requires
        s.wf(),
    ensures
        apply_op(apply_op(s, op), op) == apply_op(s, op),
{
    let t = apply_op(s, op);
    let u = apply_op(t, op);
    assert forall|i: int| 0 <= i < t.memory.len() implies u.memory[i] == t.memory[i] by {
        assert(s.dcache[i] == s.dcache[i]);
    }
    assert(u.memory =~= t.memory);
    assert(u.dcache =~= t.dcache);
    assert(u =~= t);
}

/// A data-cache range flush touches nothing outside its half-open range:
/// for any address strictly outside `[from, to)`, main memory, the cache
/// line and the owning core's view read afterwards as they read before, and
/// the instruction cache is untouched altogether.
pub proof fn lemma_data_flush_no_effect_outside(s: CacheView, from: int, to: int, addr: int)
    requires
        s.wf(),
        0 <= addr < s.memory.len(),
        addr < from || to <= addr,
    ensures
        s.after_data_flush(from, to).memory[addr] == s.memory[addr],
        s.after_data_flush(from, to).dcache[addr] == s.dcache[addr],
        s.after_data_flush(from, to).data_at(addr) == s.data_at(addr),
        s.after_data_flush(from, to).icache == s.icache,
{
}

/// An instruction-cache range flush touches nothing outside its half-open
/// range, and never main memory or the data cache: only the instruction
/// cache's copies inside `[from, to)` are dropped.
pub proof fn lemma_instr_flush_no_effect_outside(s: CacheView, from: int, to: int, addr: int)
    requires
        s.wf(),
        0 <= addr < s.memory.len(),
        addr < from || to <= addr,
    ensures
        s.after_instr_flush(from, to).memory == s.memory,
        s.after_instr_flush(from, to).dcache == s.dcache,
        s.after_instr_flush(from, to).icache[addr] == s.icache[addr],
        s.after_instr_flush(from, to).instr_at(addr) == s.instr_at(addr),
{
}

/// A data-cache range flush preserves the owning core's view everywhere —
/// inside the range the flushed lines were written back first, so nothing
/// the core wrote is lost — and leaves a well-formed state.
pub proof fn lemma_data_flush_preserves_content(s: CacheView, from: int, to: int)
    requires
        s.wf(),
    ensures
        s.after_data_flush(from, to).wf(),
        s.after_data_flush(from, to).data_view() == s.data_view(),
{
    let t = s.after_data_flush(from, to);
    assert forall|i: int| 0 <= i < s.memory.len() implies t.data_at(i) == s.data_at(i) by {
        assert(s.dcache[i] == s.dcache[i]);
    }
    assert(t.data_view() =~= s.data_view());
    assert forall|i: int|
        0 <= i < t.memory.len() implies (#[trigger] t.dcache[i] matches Line::Held {
        value,
        dirty: false,
    } ==> value == t.memory[i]) by {
        assert(s.dcache[i] == s.dcache[i]);
    }
}

/// The ordering scenario behind `clean`: a value written through a normal
/// store is not yet in main memory — a non-cache-coherent observer cannot
/// rely on seeing it — and once the whole data cache has been cleaned, main
/// memory holds it, so the observer must see it.
pub proof fn lemma_store_then_clean_publishes(s: CacheView, addr: int, v: u8)
    requires
        s.wf(),
        0 <= addr < s.memory.len(),
    ensures
        s.after_store(addr, v).memory == s.memory,
        s.after_store(addr, v).data_at(addr) == v,
        s.after_store(addr, v).after_clean().memory[addr] == v,
        s.after_store(addr, v).after_clean().data_at(addr) == v,
{
}

/// The boundary convention for both range-flush operations: an empty range
/// (`from == to`), and by the same convention an inverted one
/// (`from > to`), is accepted and changes nothing at all.
pub proof fn lemma_trivial_range_flush_is_noop(s: CacheView, from: int, to: int)
    requires
        to <= from,
    ensures
        s.after_data_flush(from, to) == s,
        s.after_instr_flush(from, to) == s,
{
    assert(s.after_data_flush(from, to).memory =~= s.memory);
    assert(s.after_data_flush(from, to).dcache =~= s.dcache);
    assert(s.after_data_flush(from, to) =~= s);
    assert(s.after_instr_flush(from, to).icache =~= s.icache);
    assert(s.after_instr_flush(from, to) =~= s);
}

/// The build-time asymmetry between the two variants: the sequence emitted
/// for a whole-cache operation starts with that operation; the narrower
/// variant ends it with the barrier, the 64-bit variant emits no barrier at
/// all; and exactly the variant without the barrier is the one with the
/// range-flush operations.
pub proof fn lemma_variant_asymmetry(arch: Arch, op: CacheOp)
    ensures
        whole_cache_steps(arch, op)[0] == Step::Maintain(op),
        barrier_required(arch) ==> whole_cache_steps(arch, op).last() == Step::Barrier,
        !barrier_required(arch) ==> forall|i: int|
            0 <= i < whole_cache_steps(arch, op).len() ==> whole_cache_steps(arch, op)[i]
                != Step::Barrier,
        barrier_required(arch) <==> !has_range_flush(arch),
{
}

/// Emitting the barrier, or not, changes no content: on either variant the
/// emitted step sequence for a whole-cache operation has exactly that
/// operation's effect on the modelled state.
pub proof fn lemma_emitted_sequence_effect(s: CacheView, arch: Arch, op: CacheOp)
    ensures
        steps_effect(s, whole_cache_steps(arch, op)) == apply_op(s, op),
{
    let steps = whole_cache_steps(arch, op);
    let t = apply_op(s, op);
    assert(steps[0] == Step::Maintain(op));
    if barrier_required(arch) {
        let rest = steps.subrange(1, 2);
        assert(rest.len() == 1);
        assert(rest[0] == Step::Barrier);
        assert(steps_effect(s, steps) == steps_effect(t, rest));
        assert(steps_effect(t, rest) == steps_effect(t, rest.subrange(1, 1)));
        assert(rest.subrange(1, 1).len() == 0);
        assert(steps_effect(t, rest.subrange(1, 1)) == t);
    } else {
        let rest = steps.subrange(1, 1);
        assert(rest.len() == 0);
        assert(steps_effect(s, steps) == steps_effect(t, rest));
        assert(steps_effect(t, rest) == t);
    }
}

} // verus!
