//! The executable cache model: a byte memory seen through a data cache and
//! an instruction cache, with the five maintenance operations.
//!
//! Stores are write-back: they land in the data cache as dirty lines and
//! reach main memory only through `clean`, `cleaninvalidate` or a data-cache
//! range flush. `read_uncached` plays the part of a non-cache-coherent
//! observer (another core, or a peripheral such as a GPU) that sees main
//! memory directly.

use vstd::prelude::*;

use crate::model::{line_cleaned, CacheView, Line};

verus! {

/// One core's memory with its data and instruction caches.
#[derive(Clone, Debug, PartialEq, Eq)]
pub struct CachedMemory {
    memory: Vec<u8>,
    dcache: Vec<Line>,
    icache: Vec<Option<u8>>,
}

impl View for CachedMemory {
    type V = CacheView;

    closed spec fn view(&self) -> CacheView {
        CacheView { memory: self.memory@, dcache: self.dcache@, icache: self.icache@ }
    }
}

impl CachedMemory {
    /// A fresh model of `size` bytes: memory all zero, both caches empty.
    pub fn new(size: usize) -> (c: CachedMemory)
        ensures
            c@.wf(),
            c@.memory.len() == size,
            forall|i: int| 0 <= i < size ==> c@.memory[i] == 0u8,
            forall|i: int| 0 <= i < size ==> c@.dcache[i] == Line::Absent,
            forall|i: int| 0 <= i < size ==> c@.icache[i] == None::<u8>,
    {
        let mut memory: Vec<u8> = Vec::new();
        let mut dcache: Vec<Line> = Vec::new();
        let mut icache: Vec<Option<u8>> = Vec::new();
        let mut i: usize = 0;
        while i < size
            invariant
                i <= size,
                memory@.len() == i,
                dcache@.len() == i,
                icache@.len() == i,
                forall|j: int| 0 <= j < i ==> memory@[j] == 0u8,
                forall|j: int| 0 <= j < i ==> dcache@[j] == Line::Absent,
                forall|j: int| 0 <= j < i ==> icache@[j] == None::<u8>,
            decreases size - i,
        {
            memory.push(0u8);
            dcache.push(Line::Absent);
            icache.push(None);
            i = i + 1;
        }
        CachedMemory { memory, dcache, icache }
    }

    /// The number of bytes the model covers.
    pub fn len(&self) -> (n: usize)
        ensures
            n == self@.memory.len(),
    {
        self.memory.len()
    }

    /// A read by the owning core, served from the data cache when a line is
    /// held. The model leaves a read fill out: filling a clean line from
    /// memory would change no view this crate speaks about.
    pub fn read(&self, addr: usize) -> (v: u8)
        requires
            self@.wf(),
            addr < self@.memory.len(),
        ensures
            v == self@.data_at(addr as int),
    {
        match self.dcache[addr] {
            Line::Held { value, .. } => value,
            Line::Absent => self.memory[addr],
        }
    }

    /// A read by a non-cache-coherent observer: main memory directly, past
    /// the owning core's data cache.
    pub fn read_uncached(&self, addr: usize) -> (v: u8)
        requires
            addr < self@.memory.len(),
        ensures
            v == self@.memory[addr as int],
    {
        self.memory[addr]
    }

    /// Whether the data cache holds unwritten data for `addr`.
    pub fn is_dirty(&self, addr: usize) -> (d: bool)
        requires
            self@.wf(),
            addr < self@.memory.len(),
        ensures
            d == self@.line_dirty(addr as int),
    {
        match self.dcache[addr] {
            Line::Held { dirty, .. } => dirty,
            Line::Absent => false,
        }
    }

    /// A normal store by the owning core: write-back, so the value lands in
    /// the data cache as a dirty line and main memory is untouched until a
    /// clean or a data-cache flush reaches the address.
    pub fn store(&mut self, addr: usize, v: u8)
        requires
            old(self)@.wf(),
            addr < old(self)@.memory.len(),
        ensures
            final(self)@ == old(self)@.after_store(addr as int, v),
            final(self)@.wf(),
    {
        self.dcache[addr] = Line::Held { value: v, dirty: true };
    }

    /// An instruction fetch by the owning core: served from the instruction
    /// cache when a copy is held — possibly a stale one — and filled from
    /// main memory on a miss. The fill is what makes an instruction-cache
    /// flush necessary after new code has been written and cleaned.
    pub fn fetch(&mut self, addr: usize) -> (v: u8)
        requires
            old(self)@.wf(),
            addr < old(self)@.memory.len(),
        ensures
            v == old(self)@.instr_at(addr as int),
            final(self)@ == old(self)@.after_fetch(addr as int),
            final(self)@.wf(),
    {
        let v: u8 = match self.icache[addr] {
            Some(value) => value,
            None => self.memory[addr],
        };
        self.icache[addr] = Some(v);
        proof {
            assert(self@.icache =~= old(self)@.icache.update(
                addr as int,
                Some(old(self)@.instr_at(addr as int)),
            ));
            assert(self@ =~= old(self)@.after_fetch(addr as int));
        }
        v
    }

    /// Clean the whole data cache: write every dirty line back to main
    /// memory and keep every held line, now marked non-dirty. On return,
    /// main memory holds exactly what the owning core had written.
    pub fn clean(&mut self)
        requires
            old(self)@.wf(),
        ensures
            final(self)@ == old(self)@.after_clean(),
            final(self)@.wf(),
    {
        let n: usize = self.memory.len();
        let mut i: usize = 0;
        while i < n
            invariant
                old(self)@.wf(),
                n == old(self)@.memory.len(),
                i <= n,
                self@.memory.len() == n,
                self@.dcache.len() == n,
                self@.icache == old(self)@.icache,
                forall|j: int|
                    0 <= j < i ==> self@.memory[j] == old(self)@.written_back_at(j),
                forall|j: int|
                    0 <= j < i ==> self@.dcache[j] == line_cleaned(old(self)@.dcache[j]),
                forall|j: int| i <= j < n ==> self@.memory[j] == old(self)@.memory[j],
                forall|j: int| i <= j < n ==> self@.dcache[j] == old(self)@.dcache[j],
            decreases n - i,
        {
            match self.dcache[i] {
                Line::Held { value, dirty } => {
                    if dirty {
                        self.memory[i] = value;
                    }
                    self.dcache[i] = Line::Held { value, dirty: false };
                },
                Line::Absent => {},
            }
            i = i + 1;
        }
        proof {
            assert(self@.memory =~= old(self)@.after_clean().memory);
            assert(self@.dcache =~= old(self)@.after_clean().dcache);
            assert(self@ =~= old(self)@.after_clean());
        }
    }

    /// Invalidate the whole data cache: drop every line without writing it
    /// back. A dirty line's value is discarded, so callers must only invoke
    /// this when no live dirty data exists or its loss is acceptable.
    pub fn invalidate(&mut self)
        requires
            old(self)@.wf(),
        ensures
            final(self)@ == old(self)@.after_invalidate(),
            final(self)@.wf(),
    {
        let n: usize = self.dcache.len();
        let mut i: usize = 0;
        while i < n
            invariant
                i <= n,
                n == old(self)@.dcache.len(),
                self@.memory == old(self)@.memory,
                self@.icache == old(self)@.icache,
                self@.dcache.len() == n,
                forall|j: int| 0 <= j < i ==> self@.dcache[j] == Line::Absent,
                forall|j: int| i <= j < n ==> self@.dcache[j] == old(self)@.dcache[j],
            decreases n - i,
        {
            self.dcache[i] = Line::Absent;
            i = i + 1;
        }
        proof {
            assert(self@.dcache =~= old(self)@.after_invalidate().dcache);
            assert(self@ =~= old(self)@.after_invalidate());
        }
    }

    /// Clean and then invalidate the whole data cache: write every dirty
    /// line back and drop every line. The safe general-purpose choice, at
    /// the cost of being the most expensive operation.
    pub fn cleaninvalidate(&mut self)
        requires
            old(self)@.wf(),
        ensures
            final(self)@ == old(self)@.after_clean_invalidate(),
            final(self)@.wf(),
    {
        let n: usize = self.memory.len();
        let mut i: usize = 0;
        while i < n
            invariant
                old(self)@.wf(),
                n == old(self)@.memory.len(),
                i <= n,
                self@.memory.len() == n,
                self@.dcache.len() == n,
                self@.icache == old(self)@.icache,
                forall|j: int|
                    0 <= j < i ==> self@.memory[j] == old(self)@.written_back_at(j),
                forall|j: int| 0 <= j < i ==> self@.dcache[j] == Line::Absent,
                forall|j: int| i <= j < n ==> self@.memory[j] == old(self)@.memory[j],
                forall|j: int| i <= j < n ==> self@.dcache[j] == old(self)@.dcache[j],
            decreases n - i,
        {
            match self.dcache[i] {
                Line::Held { value, dirty } => {
                    if dirty {
                        self.memory[i] = value;
                    }
                },
                Line::Absent => {},
            }
            self.dcache[i] = Line::Absent;
            i = i + 1;
        }
        proof {
            assert(self@.memory =~= old(self)@.after_clean_invalidate().memory);
            assert(self@.dcache =~= old(self)@.after_clean_invalidate().dcache);
            assert(self@ =~= old(self)@.after_clean_invalidate());
        }
    }

    /// Flush (clean and invalidate) the data cache over the half-open byte
    /// range `[from, to)`: dirty lines in the range are written back and all
    /// lines in it dropped; addresses outside the range are untouched. By
    /// convention an empty or inverted range (`from >= to`) is a no-op; the
    /// range must otherwise lie inside the modelled memory, a caller
    /// obligation that the hardware would not check either.
    pub fn flush_data_cache_range(&mut self, from: usize, to: usize)
        requires
            old(self)@.wf(),
            from < to ==> to <= old(self)@.memory.len(),
        ensures
            final(self)@ == old(self)@.after_data_flush(from as int, to as int),
            final(self)@.wf(),
    {
        let n: usize = self.memory.len();
        let mut i: usize = from;
        while i < to
            invariant
                old(self)@.wf(),
                n == old(self)@.memory.len(),
                from <= i,
                i < to ==> to <= n,
                i <= to || i == from,
                self@.memory.len() == n,
                self@.dcache.len() == n,
                self@.icache == old(self)@.icache,
                forall|j: int|
                    from <= j < i ==> self@.memory[j] == old(self)@.written_back_at(j),
                forall|j: int| from <= j < i ==> self@.dcache[j] == Line::Absent,
                forall|j: int|
                    0 <= j < n && !(from <= j < i) ==> self@.memory[j] == old(self)@.memory[j],
                forall|j: int|
                    0 <= j < n && !(from <= j < i) ==> self@.dcache[j] == old(self)@.dcache[j],
            decreases to - i,
        {
            match self.dcache[i] {
                Line::Held { value, dirty } => {
                    if dirty {
                        self.memory[i] = value;
                    }
                },
                Line::Absent => {},
            }
            self.dcache[i] = Line::Absent;
            i = i + 1;
        }
        proof {
            assert(self@.memory =~= old(self)@.after_data_flush(from as int, to as int).memory);
            assert(self@.dcache =~= old(self)@.after_data_flush(from as int, to as int).dcache);
            assert(self@ =~= old(self)@.after_data_flush(from as int, to as int));
        }
    }

    /// Flush the instruction cache over the half-open byte range
    /// `[from, to)`: its copies for those addresses are dropped, so the next
    /// fetch there reads main memory. Addresses outside the range, main
    /// memory and the data cache are untouched. By convention an empty or
    /// inverted range (`from >= to`) is a no-op; the range must otherwise
    /// lie inside the modelled memory.
    pub fn flush_instruction_cache_range(&mut self, from: usize, to: usize)
        requires
            old(self)@.wf(),
            from < to ==> to <= old(self)@.memory.len(),
        ensures
            final(self)@ == old(self)@.after_instr_flush(from as int, to as int),
            final(self)@.wf(),
    {
        let n: usize = self.icache.len();
        let mut i: usize = from;
        while i < to
            invariant
                old(self)@.wf(),
                n == old(self)@.icache.len(),
                from <= i,
                i < to ==> to <= n,
                i <= to || i == from,
                self@.memory == old(self)@.memory,
                self@.dcache == old(self)@.dcache,
                self@.icache.len() == n,
                forall|j: int| from <= j < i ==> self@.icache[j] == None::<u8>,
                forall|j: int|
                    0 <= j < n && !(from <= j < i) ==> self@.icache[j] == old(self)@.icache[j],
            decreases to - i,
        {
            self.icache[i] = None;
            i = i + 1;
        }
        proof {
            assert(self@.icache =~= old(self)@.after_instr_flush(from as int, to as int).icache);
            assert(self@ =~= old(self)@.after_instr_flush(from as int, to as int));
        }
    }
}

} // verus!
