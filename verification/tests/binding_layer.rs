use ruspiro_cache::binding::{maintain, whole_cache_sequence, Arch, CacheOp, Step};
use ruspiro_cache::cache::CachedMemory;

#[test]
fn narrow_variant_emits_barrier_after_each_whole_op() {
    let ops = [CacheOp::Clean, CacheOp::Invalidate, CacheOp::CleanAndInvalidate];
    for op in ops {
        let steps = whole_cache_sequence(Arch::Arm32, op);
        assert_eq!(steps, vec![Step::Maintain(op), Step::Barrier]);
    }
}

#[test]
fn wide_variant_emits_no_barrier() {
    let ops = [CacheOp::Clean, CacheOp::Invalidate, CacheOp::CleanAndInvalidate];
    for op in ops {
        let steps = whole_cache_sequence(Arch::Arm64, op);
        assert_eq!(steps, vec![Step::Maintain(op)]);
        assert!(steps.iter().all(|s| *s != Step::Barrier));
    }
}

#[test]
fn maintain_clean_publishes_on_both_variants() {
    let mut narrow = CachedMemory::new(4);
    narrow.store(1, 33);
    let mut wide = narrow.clone();
    maintain(&mut narrow, Arch::Arm32, CacheOp::Clean);
    maintain(&mut wide, Arch::Arm64, CacheOp::Clean);
    // The barrier orders accesses but moves no data: both variants leave
    // the same content behind, now visible to an uncached observer.
    assert_eq!(narrow, wide);
    assert_eq!(narrow.read_uncached(1), 33);
}

#[test]
fn maintain_dispatches_each_op() {
    let mut base = CachedMemory::new(4);
    base.store(0, 5);
    base.clean();
    base.store(2, 6);

    let mut direct = base.clone();
    direct.clean();
    let mut bound = base.clone();
    maintain(&mut bound, Arch::Arm64, CacheOp::Clean);
    assert_eq!(direct, bound);

    let mut direct = base.clone();
    direct.invalidate();
    let mut bound = base.clone();
    maintain(&mut bound, Arch::Arm64, CacheOp::Invalidate);
    assert_eq!(direct, bound);

    let mut direct = base.clone();
    direct.cleaninvalidate();
    let mut bound = base;
    maintain(&mut bound, Arch::Arm64, CacheOp::CleanAndInvalidate);
    assert_eq!(direct, bound);
}

#[test]
fn invalidate_discards_unwritten_store() {
    let mut c = CachedMemory::new(4);
    c.store(1, 77);
    maintain(&mut c, Arch::Arm32, CacheOp::Invalidate);
    // The dirty line was dropped without write-back: the modification is
    // gone, which is why callers must clean first when the data is live.
    assert_eq!(c.read(1), 0);
    assert_eq!(c.read_uncached(1), 0);
}
