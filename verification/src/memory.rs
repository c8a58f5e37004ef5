//! The executor's memory with its page protection: word-addressed, with a
//! clock.
//!
//! Word `i` lives at byte address `8 * i`. A checked access stamps each word
//! it touches with the clock, and is noted in the instruction-local lists
//! until `postprocess` drains them.

use vstd::prelude::*;
use crate::records::{
    MemoryCell, MemoryLocalEvent, MemoryReadRecord, MemoryWriteRecord, PageProtLocalEvent,
    PageProtRecord,
};

verus! {

/// Bytes in a page of the page-protection layer.
pub const PAGE_SIZE: u64 = 4096;

/// The values of `len` cells from `base` on.
pub open spec fn cell_values(mem: Seq<MemoryCell>, base: int, len: nat) -> Seq<u64> {
    Seq::new(len, |i: int| mem[base + i].value)
}

/// `mem` after the cells from `base` on took `vals` at clock `clk`.
pub open spec fn stamped(mem: Seq<MemoryCell>, base: int, vals: Seq<u64>, clk: u64) -> Seq<
    MemoryCell,
> {
    Seq::new(
        mem.len(),
        |j: int|
            if base <= j < base + vals.len() {
                MemoryCell { value: vals[j - base], timestamp: clk }
            } else {
                mem[j]
            },
    )
}

/// The records of a checked read of `len` cells from `base` on at clock `clk`.
pub open spec fn read_records(mem: Seq<MemoryCell>, base: int, len: nat, clk: u64) -> Seq<
    MemoryReadRecord,
> {
    Seq::new(
        len,
        |i: int|
            MemoryReadRecord {
                value: mem[base + i].value,
                timestamp: clk,
                prev_timestamp: mem[base + i].timestamp,
            },
    )
}

/// The records of a checked write of `vals` from `base` on at clock `clk`.
pub open spec fn write_records(mem: Seq<MemoryCell>, base: int, vals: Seq<u64>, clk: u64) -> Seq<
    MemoryWriteRecord,
> {
    Seq::new(
        vals.len(),
        |i: int|
            MemoryWriteRecord {
                value: vals[i],
                timestamp: clk,
                prev_value: mem[base + i].value,
                prev_timestamp: mem[base + i].timestamp,
            },
    )
}

/// The local notes of a checked read.
pub open spec fn read_events(mem: Seq<MemoryCell>, base: int, len: nat, clk: u64) -> Seq<
    MemoryLocalEvent,
> {
    Seq::new(
        len,
        |i: int|
            MemoryLocalEvent {
                addr: (8 * (base + i)) as u64,
                prev_value: mem[base + i].value,
                value: mem[base + i].value,
                timestamp: clk,
                is_write: false,
                finalizing: false,
            },
    )
}

/// The local notes of a checked write.
pub open spec fn write_events(
    mem: Seq<MemoryCell>,
    base: int,
    vals: Seq<u64>,
    clk: u64,
    finalizing: bool,
) -> Seq<MemoryLocalEvent> {
    Seq::new(
        vals.len(),
        |i: int|
            MemoryLocalEvent {
                addr: (8 * (base + i)) as u64,
                prev_value: mem[base + i].value,
                value: vals[i],
                timestamp: clk,
                is_write: true,
                finalizing,
            },
    )
}

/// How many pages the `len` words from `addr` on touch.
pub open spec fn page_count(addr: u64, len: nat) -> nat {
    if len == 0 {
        0
    } else {
        ((addr + 8 * len - 1) / 4096 - addr / 4096 + 1) as nat
    }
}

/// One record for each page that the `len` words from `addr` on touch, in
/// ascending order of the pages.
pub open spec fn page_records(addr: u64, len: nat, clk: u64) -> Seq<PageProtRecord> {
    Seq::new(
        page_count(addr, len),
        |i: int| PageProtRecord { page_idx: (addr / 4096 + i) as u64, timestamp: clk },
    )
}

/// The local notes of the page checks of one access.
pub open spec fn page_events(addr: u64, len: nat, clk: u64, is_write: bool) -> Seq<
    PageProtLocalEvent,
> {
    Seq::new(
        page_count(addr, len),
        |i: int|
            PageProtLocalEvent { page_idx: (addr / 4096 + i) as u64, timestamp: clk, is_write },
    )
}

/// The executor's state as a precompile sees it.
#[derive(Clone, Debug, PartialEq, Eq, Default)]
pub struct SyscallContext {
    /// The clock.
    pub clk: u64,
    /// The words of memory, from address 0 on.
    pub memory: Vec<MemoryCell>,
    /// Word accesses since the last flush.
    pub local_mem_access: Vec<MemoryLocalEvent>,
    /// Page checks since the last flush.
    pub local_page_prot_access: Vec<PageProtLocalEvent>,
}

impl SyscallContext {
    /// The `len` words from `addr` on lie in memory.
    pub open spec fn holds(&self, addr: u64, len: nat) -> bool {
        &&& addr / 8 + len <= self.memory@.len()
        &&& addr + 8 * len <= u64::MAX
    }

    /// The values of the `len` words from `addr` on.
    pub open spec fn words(&self, addr: u64, len: nat) -> Seq<u64> {
        cell_values(self.memory@, addr as int / 8, len)
    }

    /// A context at clock `clk` whose memory holds `words`, never accessed.
    pub fn new(words: &Vec<u64>, clk: u64) -> (r: Self)
        ensures
            r.clk == clk,
            r.memory@ == Seq::new(
                words@.len(),
                |i: int| MemoryCell { value: words@[i], timestamp: 0 },
            ),
            r.local_mem_access@.len() == 0,
            r.local_page_prot_access@.len() == 0,
    {
        let mut memory: Vec<MemoryCell> = Vec::new();
        let mut i: usize = 0;
        while i < words.len()
            invariant
                i <= words@.len(),
                memory@ =~= Seq::new(
                    i as nat,
                    |k: int| MemoryCell { value: words@[k], timestamp: 0 },
                ),
            decreases words@.len() - i,
        {
            memory.push(MemoryCell { value: words[i], timestamp: 0 });
            i += 1;
        }
        SyscallContext {
            clk,
            memory,
            local_mem_access: Vec::new(),
            local_page_prot_access: Vec::new(),
        }
    }

    /// Whether the `len` words from `addr` on lie in memory.
    pub fn in_range(&self, addr: u64, len: usize) -> (r: bool)
        ensures
            r == self.holds(addr, len as nat),
    {
        let n = self.memory.len();
        if len > n {
            return false;
        }
        if addr / 8 > (n - len) as u64 {
            return false;
        }
        len as u64 <= (u64::MAX - addr) / 8
    }

    /// Reads `len` words from `addr` on and leaves no trace of it.
    pub fn slice_unsafe(&self, addr: u64, len: usize) -> (r: Vec<u64>)
        requires
            self.holds(addr, len as nat),
        ensures
            r@ == self.words(addr, len as nat),
    {
        let n = self.memory.len();
        assert(addr / 8 <= n);
        let base = (addr / 8) as usize;
        let mut out: Vec<u64> = Vec::new();
        let mut i: usize = 0;
        while i < len
            invariant
                i <= len,
                base == addr / 8,
                base + len <= n,
                base + len <= self.memory@.len(),
                out@ =~= cell_values(self.memory@, base as int, i as nat),
            decreases len - i,
        {
            out.push(self.memory[base + i].value);
            i += 1;
        }
        out
    }

    /// Checks the pages that the `len` words from `addr` on touch, notes each
    /// check in the local list and returns the records.
    fn check_pages(&mut self, addr: u64, len: usize, is_write: bool) -> (r: Vec<PageProtRecord>)
        requires
            addr + 8 * len <= u64::MAX,
        ensures
            r@ == page_records(addr, len as nat, old(self).clk),
            final(self).local_page_prot_access@ == old(self).local_page_prot_access@ + page_events(
                addr,
                len as nat,
                old(self).clk,
                is_write,
            ),
            final(self).clk == old(self).clk,
            final(self).memory == old(self).memory,
            final(self).local_mem_access == old(self).local_mem_access,
    {
        let mut out: Vec<PageProtRecord> = Vec::new();
        if len == 0 {
            assert(out@ =~= page_records(addr, 0, self.clk));
            assert(self.local_page_prot_access@ =~= self.local_page_prot_access@ + page_events(
                addr,
                0,
                self.clk,
                is_write,
            ));
            return out;
        }
        let first: u64 = addr / PAGE_SIZE;
        let last: u64 = (addr + 8 * (len as u64) - 1) / PAGE_SIZE;
        let count: u64 = last - first + 1;
        let clk = self.clk;
        let mut i: u64 = 0;
        while i < count
            invariant
                i <= count,
                count == page_count(addr, len as nat),
                first == addr / 4096,
                first + count <= u64::MAX,
                clk == old(self).clk,
                self.clk == old(self).clk,
                self.memory == old(self).memory,
                self.local_mem_access == old(self).local_mem_access,
                out@ =~= Seq::new(
                    i as nat,
                    |k: int| PageProtRecord { page_idx: (addr / 4096 + k) as u64, timestamp: clk },
                ),
                self.local_page_prot_access@ =~= old(self).local_page_prot_access@ + Seq::new(
                    i as nat,
                    |k: int|
                        PageProtLocalEvent {
                            page_idx: (addr / 4096 + k) as u64,
                            timestamp: clk,
                            is_write,
                        },
                ),
            decreases count - i,
        {
            out.push(PageProtRecord { page_idx: first + i, timestamp: clk });
            self.local_page_prot_access.push(
                PageProtLocalEvent { page_idx: first + i, timestamp: clk, is_write },
            );
            i += 1;
        }
        out
    }

    /// Reads `len` words from `addr` on through the checked path: each word
    /// is stamped with the clock and noted locally.
    pub fn mr_slice(&mut self, addr: u64, len: usize) -> (r: (
        Vec<MemoryReadRecord>,
        Vec<u64>,
        Vec<PageProtRecord>,
    ))
        requires
            old(self).holds(addr, len as nat),
        ensures
            r.0@ == read_records(old(self).memory@, addr as int / 8, len as nat, old(self).clk),
            r.1@ == old(self).words(addr, len as nat),
            r.2@ == page_records(addr, len as nat, old(self).clk),
            final(self).clk == old(self).clk,
            final(self).memory@ == stamped(
                old(self).memory@,
                addr as int / 8,
                old(self).words(addr, len as nat),
                old(self).clk,
            ),
            final(self).local_mem_access@ == old(self).local_mem_access@ + read_events(
                old(self).memory@,
                addr as int / 8,
                len as nat,
                old(self).clk,
            ),
            final(self).local_page_prot_access@ == old(self).local_page_prot_access@ + page_events(
                addr,
                len as nat,
                old(self).clk,
                false,
            ),
    {
        let pages = self.check_pages(addr, len, false);
        let n = self.memory.len();
        assert(addr / 8 <= n);
        let base = (addr / 8) as usize;
        let ghost pages0 = self.local_page_prot_access@;
        let clk = self.clk;
        let ghost mem0 = self.memory@;
        let ghost local0 = self.local_mem_access@;
        let mut records: Vec<MemoryReadRecord> = Vec::new();
        let mut values: Vec<u64> = Vec::new();
        let mut i: usize = 0;
        while i < len
            invariant
                i <= len,
                base == addr / 8,
                base + len <= n,
                base + len <= mem0.len(),
                addr + 8 * len <= u64::MAX,
                self.clk == clk,
                self.local_page_prot_access@ == pages0,
                self.memory@.len() == mem0.len(),
                self.memory@ =~= stamped(
                    mem0,
                    base as int,
                    cell_values(mem0, base as int, i as nat),
                    clk,
                ),
                records@ =~= read_records(mem0, base as int, i as nat, clk),
                values@ =~= cell_values(mem0, base as int, i as nat),
                self.local_mem_access@ =~= local0 + read_events(mem0, base as int, i as nat, clk),
            decreases len - i,
        {
            let cell = self.memory[base + i];
            records.push(
                MemoryReadRecord {
                    value: cell.value,
                    timestamp: clk,
                    prev_timestamp: cell.timestamp,
                },
            );
            values.push(cell.value);
            self.local_mem_access.push(
                MemoryLocalEvent {
                    addr: 8 * ((base + i) as u64),
                    prev_value: cell.value,
                    value: cell.value,
                    timestamp: clk,
                    is_write: false,
                    finalizing: false,
                },
            );
            self.memory.set(base + i, MemoryCell { value: cell.value, timestamp: clk });
            i += 1;
        }
        (records, values, pages)
    }

    /// Writes `values` from `addr` on through the checked path: each word is
    /// stamped with the clock and noted locally, with the `finalizing` mark.
    pub fn mw_slice(&mut self, addr: u64, values: &Vec<u64>, finalizing: bool) -> (r: (
        Vec<MemoryWriteRecord>,
        Vec<PageProtRecord>,
    ))
        requires
            old(self).holds(addr, values@.len()),
        ensures
            r.0@ == write_records(old(self).memory@, addr as int / 8, values@, old(self).clk),
            r.1@ == page_records(addr, values@.len(), old(self).clk),
            final(self).clk == old(self).clk,
            final(self).memory@ == stamped(
                old(self).memory@,
                addr as int / 8,
                values@,
                old(self).clk,
            ),
            final(self).local_mem_access@ == old(self).local_mem_access@ + write_events(
                old(self).memory@,
                addr as int / 8,
                values@,
                old(self).clk,
                finalizing,
            ),
            final(self).local_page_prot_access@ == old(self).local_page_prot_access@ + page_events(
                addr,
                values@.len(),
                old(self).clk,
                true,
            ),
    {
        let len = values.len();
        let pages = self.check_pages(addr, len, true);
        let n = self.memory.len();
        assert(addr / 8 <= n);
        let base = (addr / 8) as usize;
        let ghost pages0 = self.local_page_prot_access@;
        let clk = self.clk;
        let ghost mem0 = self.memory@;
        let ghost local0 = self.local_mem_access@;
        let mut records: Vec<MemoryWriteRecord> = Vec::new();
        let mut i: usize = 0;
        while i < len
            invariant
                i <= len,
                len == values@.len(),
                base == addr / 8,
                base + len <= n,
                base + len <= mem0.len(),
                addr + 8 * len <= u64::MAX,
                self.clk == clk,
                self.local_page_prot_access@ == pages0,
                self.memory@.len() == mem0.len(),
                self.memory@ =~= stamped(mem0, base as int, values@.take(i as int), clk),
                records@ =~= write_records(mem0, base as int, values@.take(i as int), clk),
                self.local_mem_access@ =~= local0 + write_events(
                    mem0,
                    base as int,
                    values@.take(i as int),
                    clk,
                    finalizing,
                ),
            decreases len - i,
        {
            let cell = self.memory[base + i];
            let value = values[i];
            records.push(
                MemoryWriteRecord {
                    value,
                    timestamp: clk,
                    prev_value: cell.value,
                    prev_timestamp: cell.timestamp,
                },
            );
            self.local_mem_access.push(
                MemoryLocalEvent {
                    addr: 8 * ((base + i) as u64),
                    prev_value: cell.value,
                    value,
                    timestamp: clk,
                    is_write: true,
                    finalizing,
                },
            );
            self.memory.set(base + i, MemoryCell { value, timestamp: clk });
            i += 1;
        }
        proof {
            assert(values@.take(len as int) =~= values@);
        }
        (records, pages)
    }

    /// Hands out the local notes gathered since the last flush and empties
    /// both lists.
    pub fn postprocess(&mut self) -> (r: (Vec<MemoryLocalEvent>, Vec<PageProtLocalEvent>))
        ensures
            r.0@ == old(self).local_mem_access@,
            r.1@ == old(self).local_page_prot_access@,
            final(self).local_mem_access@.len() == 0,
            final(self).local_page_prot_access@.len() == 0,
            final(self).clk == old(self).clk,
            final(self).memory == old(self).memory,
    {
        let mut mem: Vec<MemoryLocalEvent> = Vec::new();
        let mut pages: Vec<PageProtLocalEvent> = Vec::new();
        std::mem::swap(&mut self.local_mem_access, &mut mem);
        std::mem::swap(&mut self.local_page_prot_access, &mut pages);
        (mem, pages)
    }
}

} // verus!
