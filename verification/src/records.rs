//! Records that the memory produces for each access.

use vstd::prelude::*;

verus! {

/// One word of memory: its value and the clock of the last access to it.
#[derive(Clone, Copy, Debug, PartialEq, Eq, Default)]
pub struct MemoryCell {
    pub value: u64,
    pub timestamp: u64,
}

/// A checked read of one word.
#[derive(Clone, Copy, Debug, PartialEq, Eq, Default)]
pub struct MemoryReadRecord {
    pub value: u64,
    pub timestamp: u64,
    pub prev_timestamp: u64,
}

/// A checked write of one word.
#[derive(Clone, Copy, Debug, PartialEq, Eq, Default)]
pub struct MemoryWriteRecord {
    pub value: u64,
    pub timestamp: u64,
    pub prev_value: u64,
    pub prev_timestamp: u64,
}

/// A page-protection check of one page.
#[derive(Clone, Copy, Debug, PartialEq, Eq, Default)]
pub struct PageProtRecord {
    pub page_idx: u64,
    pub timestamp: u64,
}

/// One word access as the instruction-local bookkeeping keeps it.
#[derive(Clone, Copy, Debug, PartialEq, Eq, Default)]
pub struct MemoryLocalEvent {
    pub addr: u64,
    pub prev_value: u64,
    pub value: u64,
    pub timestamp: u64,
    pub is_write: bool,
    pub finalizing: bool,
}

/// One page check as the instruction-local bookkeeping keeps it.
#[derive(Clone, Copy, Debug, PartialEq, Eq, Default)]
pub struct PageProtLocalEvent {
    pub page_idx: u64,
    pub timestamp: u64,
    pub is_write: bool,
}

} // verus!
