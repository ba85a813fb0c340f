//! A model of one core's view of memory through its data and instruction
//! caches.
//!
//! Main memory is a byte array. The data cache holds, per address, either no
//! line or a line with a value and a dirty bit; a non-dirty line always agrees
//! with main memory. The instruction cache holds, per address, either nothing
//! or a (possibly stale) copy of a byte fetched earlier. A store goes to the
//! data cache (write-back), so main memory — what a non-cache-coherent
//! observer reads — lags behind until a clean or a range flush writes the
//! dirty lines back.

use vstd::prelude::*;

verus! {

/// One data-cache line: either absent, or held with a value and a dirty bit.
#[derive(Clone, Copy, Debug, PartialEq, Eq)]
pub enum Line {
    Absent,
    Held { value: u8, dirty: bool },
}

/// The mathematical state of the model: main memory, the data cache and the
/// instruction cache, each indexed by address.
#[verifier::ext_equal]
pub struct CacheView {
    pub memory: Seq<u8>,
    pub dcache: Seq<Line>,
    pub icache: Seq<Option<u8>>,
}

impl CacheView {
    /// Well-formedness: the caches cover exactly the memory, and a non-dirty
    /// data-cache line agrees with main memory.
    pub open spec fn wf(self) -> bool {
        &&& self.dcache.len() == self.memory.len()
        &&& self.icache.len() == self.memory.len()
        &&& forall|i: int|
            0 <= i < self.memory.len() ==> (#[trigger] self.dcache[i] matches Line::Held {
                value,
                dirty: false,
            } ==> value == self.memory[i])
    }

    /// The byte the owning core reads at `i`: the cached value if a line is
    /// held, else main memory.
    pub open spec fn data_at(self, i: int) -> u8 {
        match self.dcache[i] {
            Line::Held { value, .. } => value,
            Line::Absent => self.memory[i],
        }
    }

    /// Memory as the owning core sees it through the data cache.
    pub open spec fn data_view(self) -> Seq<u8> {
        Seq::new(self.memory.len(), |i: int| self.data_at(i))
    }

    /// The byte that address `i` holds once all dirty lines are written back.
    pub open spec fn written_back_at(self, i: int) -> u8 {
        match self.dcache[i] {
            Line::Held { value, dirty } => if dirty {
                value
            } else {
                self.memory[i]
            },
            Line::Absent => self.memory[i],
        }
    }

    /// Whether the data cache holds a dirty line for address `i`.
    pub open spec fn line_dirty(self, i: int) -> bool {
        self.dcache[i] matches Line::Held { dirty: true, .. }
    }

    /// Whether no address holds unwritten data. Callers must establish this
    /// before a whole-cache invalidate, which discards dirty lines.
    pub open spec fn no_dirty_lines(self) -> bool {
        forall|i: int| 0 <= i < self.dcache.len() ==> !self.line_dirty(i)
    }

    /// The byte the core executes from address `i`: the instruction cache's
    /// copy if one is held, else main memory (an instruction fetch bypasses
    /// the data cache).
    pub open spec fn instr_at(self, i: int) -> u8 {
        match self.icache[i] {
            Some(value) => value,
            None => self.memory[i],
        }
    }

    /// The state after a write-back store of `v` at `addr`: the data cache
    /// takes the value as a dirty line; main memory is untouched.
    pub open spec fn after_store(self, addr: int, v: u8) -> CacheView {
        CacheView {
            memory: self.memory,
            dcache: self.dcache.update(addr, Line::Held { value: v, dirty: true }),
            icache: self.icache,
        }
    }

    /// The state after an instruction fetch at `addr` filled the instruction
    /// cache with the byte it returned.
    pub open spec fn after_fetch(self, addr: int) -> CacheView {
        CacheView {
            memory: self.memory,
            dcache: self.dcache,
            icache: self.icache.update(addr, Some(self.instr_at(addr))),
        }
    }

    /// The state after cleaning the whole data cache: every dirty line is
    /// written back to main memory; every held line stays, now non-dirty.
    pub open spec fn after_clean(self) -> CacheView {
        CacheView {
            memory: Seq::new(self.memory.len(), |i: int| self.written_back_at(i)),
            dcache: Seq::new(self.dcache.len(), |i: int| line_cleaned(self.dcache[i])),
            icache: self.icache,
        }
    }

    /// The state after invalidating the whole data cache: every line is
    /// dropped without write-back, so unwritten modifications are discarded.
    pub open spec fn after_invalidate(self) -> CacheView {
        CacheView {
            memory: self.memory,
            dcache: Seq::new(self.dcache.len(), |i: int| Line::Absent),
            icache: self.icache,
        }
    }

    /// The state after cleaning and then invalidating the whole data cache:
    /// every dirty line is written back, and every line is dropped.
    pub open spec fn after_clean_invalidate(self) -> CacheView {
        CacheView {
            memory: Seq::new(self.memory.len(), |i: int| self.written_back_at(i)),
            dcache: Seq::new(self.dcache.len(), |i: int| Line::Absent),
            icache: self.icache,
        }
    }

    /// The state after a data-cache flush (clean and invalidate) restricted
    /// to the half-open address range `[from, to)`. Addresses outside the
    /// range are untouched; an empty or inverted range changes nothing.
    pub open spec fn after_data_flush(self, from: int, to: int) -> CacheView {
        CacheView {
            memory: Seq::new(
                self.memory.len(),
                |i: int|
                    if from <= i < to {
                        self.written_back_at(i)
                    } else {
                        self.memory[i]
                    },
            ),
            dcache: Seq::new(
                self.dcache.len(),
                |i: int|
                    if from <= i < to {
                        Line::Absent
                    } else {
                        self.dcache[i]
                    },
            ),
            icache: self.icache,
        }
    }

    /// The state after an instruction-cache flush restricted to the half-open
    /// address range `[from, to)`: the instruction cache drops its copies for
    /// those addresses; everything else is untouched.
    pub open spec fn after_instr_flush(self, from: int, to: int) -> CacheView {
        CacheView {
            memory: self.memory,
            dcache: self.dcache,
            icache: Seq::new(
                self.icache.len(),
                |i: int|
                    if from <= i < to {
                        None
                    } else {
                        self.icache[i]
                    },
            ),
        }
    }
}

/// A line after a clean passed over it: a held value stays, no longer dirty.
pub open spec fn line_cleaned(l: Line) -> Line {
    match l {
        Line::Held { value, .. } => Line::Held { value, dirty: false },
        Line::Absent => Line::Absent,
    }
}

} // verus!
