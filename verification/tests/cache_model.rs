use ruspiro_cache::cache::CachedMemory;

#[test]
fn new_cache_is_zeroed_and_clean() {
    let c = CachedMemory::new(4);
    assert_eq!(c.len(), 4);
    let mut a: usize = 0;
    while a < 4 {
        assert_eq!(c.read(a), 0);
        assert_eq!(c.read_uncached(a), 0);
        assert!(!c.is_dirty(a));
        a += 1;
    }
}

#[test]
fn read_sees_latest_store() {
    let mut c = CachedMemory::new(4);
    c.store(2, 42);
    assert_eq!(c.read(2), 42);
    assert_eq!(c.read_uncached(2), 0);
    assert!(c.is_dirty(2));
}

#[test]
fn clean_preserves_core_content() {
    let mut c = CachedMemory::new(4);
    c.store(0, 10);
    c.store(3, 30);
    c.clean();
    assert_eq!(c.read(0), 10);
    assert_eq!(c.read(3), 30);
    assert_eq!(c.read(1), 0);
    assert_eq!(c.read_uncached(0), 10);
    assert_eq!(c.read_uncached(3), 30);
    assert!(!c.is_dirty(0));
    assert!(!c.is_dirty(3));
}

#[test]
fn invalidate_preserves_synchronized_content() {
    let mut c = CachedMemory::new(4);
    c.store(1, 11);
    c.clean();
    c.invalidate();
    assert_eq!(c.read(1), 11);
    assert_eq!(c.read_uncached(1), 11);
    assert_eq!(c.read(0), 0);
}

#[test]
fn clean_invalidate_preserves_content() {
    let mut c = CachedMemory::new(4);
    c.store(1, 11);
    c.store(2, 22);
    c.cleaninvalidate();
    assert_eq!(c.read(1), 11);
    assert_eq!(c.read(2), 22);
    assert_eq!(c.read_uncached(1), 11);
    assert_eq!(c.read_uncached(2), 22);
    assert!(!c.is_dirty(1));
    assert!(!c.is_dirty(2));
}

#[test]
fn clean_twice_same_as_once() {
    let mut base = CachedMemory::new(6);
    base.store(0, 1);
    base.store(4, 9);
    let mut once = base.clone();
    once.clean();
    let mut twice = base;
    twice.clean();
    twice.clean();
    assert_eq!(once, twice);
}

#[test]
fn invalidate_twice_same_as_once() {
    let mut base = CachedMemory::new(6);
    base.store(0, 1);
    base.store(4, 9);
    let mut once = base.clone();
    once.invalidate();
    let mut twice = base;
    twice.invalidate();
    twice.invalidate();
    assert_eq!(once, twice);
}

#[test]
fn clean_invalidate_twice_same_as_once() {
    let mut base = CachedMemory::new(6);
    base.store(0, 1);
    base.store(4, 9);
    let mut once = base.clone();
    once.cleaninvalidate();
    let mut twice = base;
    twice.cleaninvalidate();
    twice.cleaninvalidate();
    assert_eq!(once, twice);
}

#[test]
fn data_flush_touches_only_range() {
    let mut c = CachedMemory::new(8);
    c.store(1, 10);
    c.store(3, 30);
    c.store(6, 60);
    c.flush_data_cache_range(2, 5);
    // Inside [2, 5): written back and dropped.
    assert_eq!(c.read_uncached(3), 30);
    assert!(!c.is_dirty(3));
    assert_eq!(c.read(3), 30);
    // Strictly outside: untouched, still dirty, not written back.
    assert_eq!(c.read_uncached(1), 0);
    assert_eq!(c.read_uncached(6), 0);
    assert!(c.is_dirty(1));
    assert!(c.is_dirty(6));
    assert_eq!(c.read(1), 10);
    assert_eq!(c.read(6), 60);
}

#[test]
fn instruction_flush_touches_only_range() {
    let mut c = CachedMemory::new(8);
    // Fill the instruction cache at two addresses with the initial bytes.
    assert_eq!(c.fetch(0), 0);
    assert_eq!(c.fetch(6), 0);
    // New code lands at both addresses and is pushed to main memory.
    c.store(0, 7);
    c.store(6, 9);
    c.clean();
    assert_eq!(c.read_uncached(0), 7);
    assert_eq!(c.read_uncached(6), 9);
    // Both fetches are still served from the stale instruction cache.
    assert_eq!(c.fetch(0), 0);
    assert_eq!(c.fetch(6), 0);
    // Flushing [5, 8) refreshes address 6 and must not touch address 0.
    c.flush_instruction_cache_range(5, 8);
    assert_eq!(c.fetch(6), 9);
    assert_eq!(c.fetch(0), 0);
}

#[test]
fn store_visible_to_observer_only_after_clean() {
    let mut c = CachedMemory::new(4);
    c.store(2, 42);
    // The non-cache-coherent observer must not see the value yet...
    assert_eq!(c.read_uncached(2), 0);
    c.clean();
    // ...and must see it once clean() has returned.
    assert_eq!(c.read_uncached(2), 42);
    assert_eq!(c.read(2), 42);
}

#[test]
fn empty_range_flush_is_noop() {
    let mut c = CachedMemory::new(6);
    c.store(2, 5);
    c.store(3, 8);
    let before = c.clone();
    c.flush_data_cache_range(3, 3);
    c.flush_instruction_cache_range(3, 3);
    assert_eq!(c, before);
    assert!(c.is_dirty(3));
    assert_eq!(c.read_uncached(3), 0);
}

#[test]
fn inverted_range_flush_is_noop() {
    let mut c = CachedMemory::new(6);
    c.store(2, 5);
    let before = c.clone();
    c.flush_data_cache_range(5, 2);
    c.flush_instruction_cache_range(5, 2);
    assert_eq!(c, before);
}

#[test]
fn fetch_fills_and_flush_refreshes() {
    let mut c = CachedMemory::new(4);
    assert_eq!(c.fetch(0), 0);
    c.store(0, 7);
    c.clean();
    // The instruction cache still holds the stale byte.
    assert_eq!(c.fetch(0), 0);
    c.flush_instruction_cache_range(0, 1);
    assert_eq!(c.fetch(0), 7);
}
