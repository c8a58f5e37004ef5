//! The three events and the handlers that create them.
//!
//! A handler either returns the whole event or a fault. A fault is found
//! before the first checked access: the context is then as it was. To find
//! out whether the operands are points that the curve's arithmetic accepts,
//! a handler peeks at them, which leaves no trace.

use vstd::prelude::*;
use crate::curve::{
    bytes_to_words_le, ec_double_words, flipped, le_bytes_of_words, le_bytes_value,
    lemma_zero_padded_value, reversed, resized, words_of_le_bytes, words_to_bytes_le, zero_padded, CurveType,
};
use crate::memory::{
    page_events, page_records, read_events, read_records, stamped, write_events, write_records,
    SyscallContext,
};
use crate::records::{
    MemoryLocalEvent, MemoryReadRecord, MemoryWriteRecord, PageProtLocalEvent, PageProtRecord,
};

verus! {

/// Why a precompile did not run. Each of these ends the program.
#[derive(Clone, Copy, Debug, PartialEq, Eq, Structural)]
pub enum Fault {
    /// A pointer is not a multiple of 8.
    MisalignedPointer,
    /// The sign bit is neither 0 nor 1.
    InvalidSignBit,
    /// The curve has no decompression.
    UnsupportedCurve,
    /// An operand does not lie in memory.
    OutOfRange,
    /// The clock cannot advance.
    ClockExhausted,
    /// An operand is no point of the curve, or the operands have no affine
    /// sum.
    InvalidPoint,
}

/// The page-protection records of one operation, reads and writes apart.
#[derive(Default, Debug, Clone, PartialEq, Eq)]
pub struct EllipticCurvePageProtRecords {
    /// The page prot records for reading the address.
    pub read_page_prot_records: Vec<PageProtRecord>,
    /// The page prot records for writing the address.
    pub write_page_prot_records: Vec<PageProtRecord>,
}

/// What happened when `p := p + q` was executed.
#[derive(Default, Debug, Clone, PartialEq, Eq)]
pub struct EllipticCurveAddEvent {
    /// The clock cycle at which the instruction started.
    pub clk: u64,
    /// The pointer to the first point.
    pub p_ptr: u64,
    /// The first point as a list of words, before the addition.
    pub p: Vec<u64>,
    /// The pointer to the second point.
    pub q_ptr: u64,
    /// The second point as a list of words.
    pub q: Vec<u64>,
    /// The memory records for the first point.
    pub p_memory_records: Vec<MemoryWriteRecord>,
    /// The memory records for the second point.
    pub q_memory_records: Vec<MemoryReadRecord>,
    /// The local memory access records.
    pub local_mem_access: Vec<MemoryLocalEvent>,
    /// The page prot records.
    pub page_prot_records: EllipticCurvePageProtRecords,
    /// The local page prot access records.
    pub local_page_prot_access: Vec<PageProtLocalEvent>,
}

/// What happened when `p := 2p` was executed.
#[derive(Default, Debug, Clone, PartialEq, Eq)]
pub struct EllipticCurveDoubleEvent {
    /// The clock cycle at which the instruction started.
    pub clk: u64,
    /// The pointer to the point.
    pub p_ptr: u64,
    /// The point as a list of words, before the doubling.
    pub p: Vec<u64>,
    /// The memory records for the point.
    pub p_memory_records: Vec<MemoryWriteRecord>,
    /// The local memory access records.
    pub local_mem_access: Vec<MemoryLocalEvent>,
    /// Write slice page prot access records.
    pub write_slice_page_prot_access: Vec<PageProtRecord>,
    /// The local page prot access records.
    pub local_page_prot_access: Vec<PageProtLocalEvent>,
}

/// What happened when a point was decompressed.
#[derive(Default, Debug, Clone, PartialEq, Eq)]
pub struct EllipticCurveDecompressEvent {
    /// The clock cycle at which the instruction started.
    pub clk: u64,
    /// The pointer to the point.
    pub ptr: u64,
    /// The sign bit of the point.
    pub sign_bit: bool,
    /// The x coordinate as little-endian bytes.
    pub x_bytes: Vec<u8>,
    /// The decompressed y coordinate as little-endian bytes.
    pub decompressed_y_bytes: Vec<u8>,
    /// The memory records for the x coordinate.
    pub x_memory_records: Vec<MemoryReadRecord>,
    /// The memory records for the y coordinate.
    pub y_memory_records: Vec<MemoryWriteRecord>,
    /// The local memory access records.
    pub local_mem_access: Vec<MemoryLocalEvent>,
    /// The page prot records.
    pub page_prot_records: EllipticCurvePageProtRecords,
    /// The local page prot access records.
    pub local_page_prot_access: Vec<PageProtLocalEvent>,
}

/// The values that write records hold, in their order.
pub open spec fn written_values(records: Seq<MemoryWriteRecord>) -> Seq<u64> {
    Seq::new(records.len(), |i: int| records[i].value)
}

/// The fault, if any, that stops an addition. Where several hold, the first
/// of this order is the one returned.
pub open spec fn add_fault(
    rt: SyscallContext,
    curve: CurveType,
    p_ptr: u64,
    q_ptr: u64,
) -> Option<Fault> {
    let n = curve.point_words();
    if p_ptr % 8 != 0 || q_ptr % 8 != 0 {
        Some(Fault::MisalignedPointer)
    } else if !rt.holds(p_ptr, n) || !rt.holds(q_ptr, n) {
        Some(Fault::OutOfRange)
    } else if rt.clk == u64::MAX {
        Some(Fault::ClockExhausted)
    } else if !curve.addable(rt.words(p_ptr, n), rt.words(q_ptr, n)) {
        Some(Fault::InvalidPoint)
    } else {
        None
    }
}

/// `e` is the event of `p := p + q` on the context `rt`: `q` is read at the
/// clock of `rt`, the sum is written one tick later, as a finalizing write.
pub open spec fn is_add_event(
    rt: SyscallContext,
    curve: CurveType,
    p_ptr: u64,
    q_ptr: u64,
    e: EllipticCurveAddEvent,
) -> bool {
    let n = curve.point_words();
    let p = rt.words(p_ptr, n);
    let q = rt.words(q_ptr, n);
    let sum = curve.sum_words(p, q);
    let read = stamped(rt.memory@, q_ptr as int / 8, q, rt.clk);
    let tick = (rt.clk + 1) as u64;
    &&& e.clk == rt.clk
    &&& e.p_ptr == p_ptr
    &&& e.q_ptr == q_ptr
    &&& e.p@ == p
    &&& e.q@ == q
    &&& e.q_memory_records@ == read_records(rt.memory@, q_ptr as int / 8, n, rt.clk)
    &&& e.p_memory_records@ == write_records(read, p_ptr as int / 8, sum, tick)
    &&& e.page_prot_records.read_page_prot_records@ == page_records(q_ptr, n, rt.clk)
    &&& e.page_prot_records.write_page_prot_records@ == page_records(p_ptr, n, tick)
    &&& e.local_mem_access@ == rt.local_mem_access@ + read_events(
        rt.memory@,
        q_ptr as int / 8,
        n,
        rt.clk,
    ) + write_events(read, p_ptr as int / 8, sum, tick, true)
    &&& e.local_page_prot_access@ == rt.local_page_prot_access@ + page_events(
        q_ptr,
        n,
        rt.clk,
        false,
    ) + page_events(p_ptr, n, tick, true)
}

/// `after` is the context that `p := p + q` leaves of `rt`.
pub open spec fn is_add_state(
    rt: SyscallContext,
    curve: CurveType,
    p_ptr: u64,
    q_ptr: u64,
    after: SyscallContext,
) -> bool {
    let n = curve.point_words();
    let q = rt.words(q_ptr, n);
    let sum = curve.sum_words(rt.words(p_ptr, n), q);
    let read = stamped(rt.memory@, q_ptr as int / 8, q, rt.clk);
    &&& after.clk == rt.clk + 1
    &&& after.memory@ == stamped(read, p_ptr as int / 8, sum, after.clk)
    &&& after.local_mem_access@.len() == 0
    &&& after.local_page_prot_access@.len() == 0
}

/// Adds the point at `arg2` to the point at `arg1` and records it.
///
/// The first operand is peeked at, the second read through the checked
/// path; the clock advances by one tick, and the sum is written over the
/// first operand. The local notes are flushed once, into the event. Where
/// both operands hold the same point, on whatever curve, what is written is
/// its double.
///
/// Fails, with the context untouched, on a pointer that is no multiple of 8,
/// on operands outside memory, on a clock that cannot advance, and on
/// operands that are no points of the curve or have no affine sum.
pub fn create_ec_add_event(
    rt: &mut SyscallContext,
    curve: CurveType,
    arg1: u64,
    arg2: u64,
) -> (r: Result<EllipticCurveAddEvent, Fault>)
    ensures
        match add_fault(*old(rt), curve, arg1, arg2) {
            Some(f) => r is Err && r->Err_0 == f && *final(rt) == *old(rt),
            None => {
                &&& r is Ok
                &&& is_add_event(*old(rt), curve, arg1, arg2, r->Ok_0)
                &&& is_add_state(*old(rt), curve, arg1, arg2, *final(rt))
                &&& written_values(r->Ok_0.p_memory_records@) == curve.sum_words(
                    r->Ok_0.p@,
                    r->Ok_0.q@,
                )
                &&& final(rt).words(arg1, curve.point_words()) == curve.sum_words(
                    r->Ok_0.p@,
                    r->Ok_0.q@,
                )
                &&& arg1 == arg2 ==> written_values(r->Ok_0.p_memory_records@)
                    == ec_double_words(curve, r->Ok_0.p@)
            },
        },
{
    let start_clk = rt.clk;
    let p_ptr = arg1;
    let q_ptr = arg2;
    if p_ptr % 8 != 0 || q_ptr % 8 != 0 {
        return Err(Fault::MisalignedPointer);
    }
    let num_words = curve.num_point_words();
    if !rt.in_range(p_ptr, num_words) || !rt.in_range(q_ptr, num_words) {
        return Err(Fault::OutOfRange);
    }
    if rt.clk == u64::MAX {
        return Err(Fault::ClockExhausted);
    }
    let p = rt.slice_unsafe(p_ptr, num_words);
    let q_peek = rt.slice_unsafe(q_ptr, num_words);
    if !curve.check_addable(&p, &q_peek) {
        return Err(Fault::InvalidPoint);
    }
    let (q_memory_records, q, read_page_prot_records) = rt.mr_slice(q_ptr, num_words);
    // The write must be told from the read even where p and q are the same.
    rt.clk = rt.clk + 1;
    let result_words = curve.add_words(&p, &q);
    let (p_memory_records, write_page_prot_records) = rt.mw_slice(p_ptr, &result_words, true);
    let (local_mem_access, local_page_prot_access) = rt.postprocess();
    proof {
        assert(written_values(p_memory_records@) =~= result_words@);
        assert(rt.words(p_ptr, num_words as nat) =~= result_words@);
    }
    Ok(
        EllipticCurveAddEvent {
            clk: start_clk,
            p_ptr,
            p,
            q_ptr,
            q,
            p_memory_records,
            q_memory_records,
            local_mem_access,
            page_prot_records: EllipticCurvePageProtRecords {
                read_page_prot_records,
                write_page_prot_records,
            },
            local_page_prot_access,
        },
    )
}

/// The fault, if any, that stops a doubling. Where several hold, the first
/// of this order is the one returned.
pub open spec fn double_fault(rt: SyscallContext, curve: CurveType, p_ptr: u64) -> Option<Fault> {
    if p_ptr % 8 != 0 {
        Some(Fault::MisalignedPointer)
    } else if !rt.holds(p_ptr, curve.point_words()) {
        Some(Fault::OutOfRange)
    } else if !curve.doublable(rt.words(p_ptr, curve.point_words())) {
        Some(Fault::InvalidPoint)
    } else {
        None
    }
}

/// `e` is the event of `p := 2p` on the context `rt`: the result is written
/// at the clock of `rt`, as a finalizing write.
pub open spec fn is_double_event(
    rt: SyscallContext,
    curve: CurveType,
    p_ptr: u64,
    e: EllipticCurveDoubleEvent,
) -> bool {
    let n = curve.point_words();
    let p = rt.words(p_ptr, n);
    let twice = ec_double_words(curve, p);
    &&& e.clk == rt.clk
    &&& e.p_ptr == p_ptr
    &&& e.p@ == p
    &&& e.p_memory_records@ == write_records(rt.memory@, p_ptr as int / 8, twice, rt.clk)
    &&& e.write_slice_page_prot_access@ == page_records(p_ptr, n, rt.clk)
    &&& e.local_mem_access@ == rt.local_mem_access@ + write_events(
        rt.memory@,
        p_ptr as int / 8,
        twice,
        rt.clk,
        true,
    )
    &&& e.local_page_prot_access@ == rt.local_page_prot_access@ + page_events(
        p_ptr,
        n,
        rt.clk,
        true,
    )
}

/// `after` is the context that `p := 2p` leaves of `rt`.
pub open spec fn is_double_state(
    rt: SyscallContext,
    curve: CurveType,
    p_ptr: u64,
    after: SyscallContext,
) -> bool {
    let twice = ec_double_words(curve, rt.words(p_ptr, curve.point_words()));
    &&& after.clk == rt.clk
    &&& after.memory@ == stamped(rt.memory@, p_ptr as int / 8, twice, rt.clk)
    &&& after.local_mem_access@.len() == 0
    &&& after.local_page_prot_access@.len() == 0
}

/// Doubles the point at `arg1` and records it.
///
/// The operand is peeked at and the result written over it; the clock does
/// not move. The second argument is not used.
///
/// Fails, with the context untouched, on a pointer that is no multiple of 8,
/// on an operand outside memory, and on one that is no point of the curve.
pub fn create_ec_double_event(
    rt: &mut SyscallContext,
    curve: CurveType,
    arg1: u64,
    _arg2: u64,
) -> (r: Result<EllipticCurveDoubleEvent, Fault>)
    ensures
        match double_fault(*old(rt), curve, arg1) {
            Some(f) => r is Err && r->Err_0 == f && *final(rt) == *old(rt),
            None => {
                &&& r is Ok
                &&& is_double_event(*old(rt), curve, arg1, r->Ok_0)
                &&& is_double_state(*old(rt), curve, arg1, *final(rt))
                &&& written_values(r->Ok_0.p_memory_records@) == ec_double_words(
                    curve,
                    r->Ok_0.p@,
                )
                &&& final(rt).words(arg1, curve.point_words()) == ec_double_words(
                    curve,
                    r->Ok_0.p@,
                )
            },
        },
{
    let start_clk = rt.clk;
    let p_ptr = arg1;
    if p_ptr % 8 != 0 {
        return Err(Fault::MisalignedPointer);
    }
    let num_words = curve.num_point_words();
    if !rt.in_range(p_ptr, num_words) {
        return Err(Fault::OutOfRange);
    }
    let p = rt.slice_unsafe(p_ptr, num_words);
    if !curve.check_doublable(&p) {
        return Err(Fault::InvalidPoint);
    }
    let result_words = curve.double_words(&p);
    let (p_memory_records, write_page_prot_records) = rt.mw_slice(p_ptr, &result_words, true);
    let (local_mem_access, local_page_prot_access) = rt.postprocess();
    proof {
        assert(written_values(p_memory_records@) =~= result_words@);
        assert(rt.words(p_ptr, num_words as nat) =~= result_words@);
    }
    Ok(
        EllipticCurveDoubleEvent {
            clk: start_clk,
            p_ptr,
            p,
            p_memory_records,
            local_mem_access,
            write_slice_page_prot_access: write_page_prot_records,
            local_page_prot_access,
        },
    )
}

/// The fault, if any, that stops a decompression. Where several hold, the
/// first of this order is the one returned. The first coordinate lies one
/// field element behind `ptr`.
pub open spec fn decompress_fault(
    rt: SyscallContext,
    curve: CurveType,
    ptr: u64,
    sign_bit: u64,
) -> Option<Fault> {
    let limbs = curve.limbs();
    if ptr % 8 != 0 {
        Some(Fault::MisalignedPointer)
    } else if sign_bit > 1 {
        Some(Fault::InvalidSignBit)
    } else if !curve.decompresses() {
        Some(Fault::UnsupportedCurve)
    } else if ptr + limbs > u64::MAX || !rt.holds(ptr, limbs / 8) || !rt.holds(
        (ptr + limbs) as u64,
        limbs / 8,
    ) {
        Some(Fault::OutOfRange)
    } else if rt.clk == u64::MAX {
        Some(Fault::ClockExhausted)
    } else if !curve.is_curve_x(le_bytes_value(compressed_x(rt, curve, ptr))) {
        Some(Fault::InvalidPoint)
    } else {
        None
    }
}

/// The little-endian bytes of the first coordinate that a decompression at
/// `ptr` reads.
pub open spec fn compressed_x(rt: SyscallContext, curve: CurveType, ptr: u64) -> Seq<u8> {
    le_bytes_of_words(rt.words((ptr + curve.limbs()) as u64, curve.limbs() / 8))
}

/// The bytes of the second coordinate that a decompression at `ptr` writes:
/// what the curve's formula gives, cut or filled with zeros to the width of a
/// field element.
pub open spec fn decompressed_bytes(
    rt: SyscallContext,
    curve: CurveType,
    ptr: u64,
    sign_bit: u64,
) -> Seq<u8> {
    zero_padded(
        curve.decompressed_y(flipped(compressed_x(rt, curve, ptr)), sign_bit as u32),
        curve.limbs(),
    )
}

/// `e` is the event of a decompression on the context `rt`: `x` is read at
/// the clock of `rt`, `y` is written one tick later, not as a finalizing
/// write.
pub open spec fn is_decompress_event(
    rt: SyscallContext,
    curve: CurveType,
    ptr: u64,
    sign_bit: u64,
    e: EllipticCurveDecompressEvent,
) -> bool {
    let n = curve.limbs() / 8;
    let x_ptr = (ptr + curve.limbs()) as u64;
    let x_words = rt.words(x_ptr, n);
    let y_bytes = decompressed_bytes(rt, curve, ptr, sign_bit);
    let y_words = words_of_le_bytes(y_bytes);
    let read = stamped(rt.memory@, x_ptr as int / 8, x_words, rt.clk);
    let tick = (rt.clk + 1) as u64;
    &&& e.clk == rt.clk
    &&& e.ptr == ptr
    &&& e.sign_bit == (sign_bit != 0)
    &&& e.x_bytes@ == compressed_x(rt, curve, ptr)
    &&& e.decompressed_y_bytes@ == y_bytes
    &&& e.x_memory_records@ == read_records(rt.memory@, x_ptr as int / 8, n, rt.clk)
    &&& e.y_memory_records@ == write_records(read, ptr as int / 8, y_words, tick)
    &&& e.page_prot_records.read_page_prot_records@ == page_records(x_ptr, n, rt.clk)
    &&& e.page_prot_records.write_page_prot_records@ == page_records(ptr, n, tick)
    &&& e.local_mem_access@ == rt.local_mem_access@ + read_events(
        rt.memory@,
        x_ptr as int / 8,
        n,
        rt.clk,
    ) + write_events(read, ptr as int / 8, y_words, tick, false)
    &&& e.local_page_prot_access@ == rt.local_page_prot_access@ + page_events(
        x_ptr,
        n,
        rt.clk,
        false,
    ) + page_events(ptr, n, tick, true)
}

/// `after` is the context that a decompression leaves of `rt`.
pub open spec fn is_decompress_state(
    rt: SyscallContext,
    curve: CurveType,
    ptr: u64,
    sign_bit: u64,
    after: SyscallContext,
) -> bool {
    let n = curve.limbs() / 8;
    let x_ptr = (ptr + curve.limbs()) as u64;
    let read = stamped(rt.memory@, x_ptr as int / 8, rt.words(x_ptr, n), rt.clk);
    let y_words = words_of_le_bytes(decompressed_bytes(rt, curve, ptr, sign_bit));
    &&& after.clk == rt.clk + 1
    &&& after.memory@ == stamped(read, ptr as int / 8, y_words, after.clk)
    &&& after.local_mem_access@.len() == 0
    &&& after.local_page_prot_access@.len() == 0
}

/// Decompresses the point whose first coordinate lies one field element
/// behind `slice_ptr`, writes its second coordinate at `slice_ptr` and
/// records it.
///
/// The first coordinate is read through the checked path; the clock advances
/// by one tick before the second is written, since both may lie on one page.
/// The second coordinate lies on the curve with the first, and its sign is
/// the one asked for.
///
/// Fails, with the context untouched, on a pointer that is no multiple of 8,
/// on a sign bit above 1, on a curve without decompression, on a place
/// outside memory, on a clock that cannot advance, and on a first coordinate
/// that no point of the curve has.
pub fn create_ec_decompress_event(
    rt: &mut SyscallContext,
    curve: CurveType,
    slice_ptr: u64,
    sign_bit: u64,
) -> (r: Result<EllipticCurveDecompressEvent, Fault>)
    ensures
        match decompress_fault(*old(rt), curve, slice_ptr, sign_bit) {
            Some(f) => r is Err && r->Err_0 == f && *final(rt) == *old(rt),
            None => {
                &&& r is Ok
                &&& is_decompress_event(*old(rt), curve, slice_ptr, sign_bit, r->Ok_0)
                &&& is_decompress_state(*old(rt), curve, slice_ptr, sign_bit, *final(rt))
                &&& r->Ok_0.x_bytes@.len() == curve.limbs()
                &&& r->Ok_0.decompressed_y_bytes@.len() == curve.limbs()
                &&& curve.on_curve(
                    le_bytes_value(r->Ok_0.x_bytes@),
                    le_bytes_value(r->Ok_0.decompressed_y_bytes@),
                )
                &&& curve.sign_of(le_bytes_value(r->Ok_0.decompressed_y_bytes@))
                    == r->Ok_0.sign_bit
                &&& final(rt).words(slice_ptr, curve.limbs() / 8) == words_of_le_bytes(
                    r->Ok_0.decompressed_y_bytes@,
                )
                &&& written_values(r->Ok_0.y_memory_records@) == words_of_le_bytes(
                    r->Ok_0.decompressed_y_bytes@,
                )
            },
        },
{
    let start_clk = rt.clk;
    if slice_ptr % 8 != 0 {
        return Err(Fault::MisalignedPointer);
    }
    if sign_bit > 1 {
        return Err(Fault::InvalidSignBit);
    }
    let decompress = match curve.decompressor() {
        Some(d) => d,
        None => {
            return Err(Fault::UnsupportedCurve);
        },
    };
    let num_limbs = curve.num_limbs();
    let num_words_field_element = num_limbs / 8;
    if slice_ptr > u64::MAX - (num_limbs as u64) {
        return Err(Fault::OutOfRange);
    }
    let x_ptr = slice_ptr + (num_limbs as u64);
    if !rt.in_range(slice_ptr, num_words_field_element) || !rt.in_range(
        x_ptr,
        num_words_field_element,
    ) {
        return Err(Fault::OutOfRange);
    }
    if rt.clk == u64::MAX {
        return Err(Fault::ClockExhausted);
    }
    let x_peek = words_to_bytes_le(&rt.slice_unsafe(x_ptr, num_words_field_element));
    if !curve.check_curve_x(&x_peek) {
        return Err(Fault::InvalidPoint);
    }
    let (x_memory_records, x_vec, read_page_prot_records) = rt.mr_slice(
        x_ptr,
        num_words_field_element,
    );
    let x_bytes = words_to_bytes_le(&x_vec);
    let x_bytes_be = reversed(&x_bytes);
    proof {
        assert(flipped(x_bytes_be@) =~= x_bytes@);
    }
    let y = decompress.y_bytes(&x_bytes_be, sign_bit as u32);
    let decompressed_y_bytes = resized(&y, num_limbs);
    proof {
        lemma_zero_padded_value(y@, num_limbs as nat);
    }
    let y_words = bytes_to_words_le(&decompressed_y_bytes);
    // The read and the write may fall on one page.
    rt.clk = rt.clk + 1;
    let (y_memory_records, write_page_prot_records) = rt.mw_slice(slice_ptr, &y_words, false);
    let (local_mem_access, local_page_prot_access) = rt.postprocess();
    proof {
        assert(written_values(y_memory_records@) =~= y_words@);
        assert(rt.words(slice_ptr, num_words_field_element as nat) =~= y_words@);
    }
    Ok(
        EllipticCurveDecompressEvent {
            clk: start_clk,
            ptr: slice_ptr,
            sign_bit: sign_bit != 0,
            x_bytes,
            decompressed_y_bytes,
            x_memory_records,
            y_memory_records,
            local_mem_access,
            page_prot_records: EllipticCurvePageProtRecords {
                read_page_prot_records,
                write_page_prot_records,
            },
            local_page_prot_access,
        },
    )
}

/// Where both operands of an addition are the same words of memory, on
/// whatever curve, the event holds the same point twice, what is written is
/// the double of that point, and each word written replaces the very word
/// that was read for the second operand, one tick after that read.
pub proof fn lemma_add_self_alias(
    rt: SyscallContext,
    curve: CurveType,
    ptr: u64,
    e: EllipticCurveAddEvent,
)
    requires
        add_fault(rt, curve, ptr, ptr) is None,
        is_add_event(rt, curve, ptr, ptr, e),
    ensures
        e.p@ == e.q@,
        written_values(e.p_memory_records@) == ec_double_words(curve, e.p@),
        e.p_memory_records@.len() == ec_double_words(curve, e.p@).len(),
        forall|i: int|
            0 <= i < e.p_memory_records@.len() && i < e.q@.len() ==> {
                &&& (#[trigger] e.p_memory_records@[i]).prev_value == e.q@[i]
                &&& e.p_memory_records@[i].prev_timestamp == e.clk
                &&& e.p_memory_records@[i].timestamp == e.clk + 1
            },
{
    assert(written_values(e.p_memory_records@) =~= ec_double_words(curve, e.p@));
}

/// In the event of an addition every page check of the read carries the
/// clock at which the instruction started, every page check of the write the
/// next tick, and the local notes hold the checks of the read before those
/// of the write.
pub proof fn lemma_add_page_checks_ordered(
    rt: SyscallContext,
    curve: CurveType,
    p_ptr: u64,
    q_ptr: u64,
    e: EllipticCurveAddEvent,
)
    requires
        add_fault(rt, curve, p_ptr, q_ptr) is None,
        is_add_event(rt, curve, p_ptr, q_ptr, e),
    ensures
        forall|i: int|
            0 <= i < e.page_prot_records.read_page_prot_records@.len() ==> (
            #[trigger] e.page_prot_records.read_page_prot_records@[i]).timestamp == e.clk,
        forall|i: int|
            0 <= i < e.page_prot_records.write_page_prot_records@.len() ==> (
            #[trigger] e.page_prot_records.write_page_prot_records@[i]).timestamp == e.clk + 1,
        e.page_prot_records.read_page_prot_records@.len() > 0,
        e.page_prot_records.write_page_prot_records@.len() > 0,
        e.local_page_prot_access@.len() == rt.local_page_prot_access@.len()
            + e.page_prot_records.read_page_prot_records@.len()
            + e.page_prot_records.write_page_prot_records@.len(),
        forall|i: int|
            0 <= i < e.page_prot_records.read_page_prot_records@.len() ==> {
                let note = #[trigger] e.local_page_prot_access@[rt.local_page_prot_access@.len()
                    + i];
                !note.is_write && note.timestamp == e.clk
            },
        forall|i: int|
            0 <= i < e.page_prot_records.write_page_prot_records@.len() ==> {
                let note = #[trigger] e.local_page_prot_access@[rt.local_page_prot_access@.len()
                    + e.page_prot_records.read_page_prot_records@.len() + i];
                note.is_write && note.timestamp == e.clk + 1
            },
{
}

/// A decompression writes exactly as many bytes as a field element has,
/// whatever the curve's formula returned, and each of them beyond what the
/// formula returned is zero.
pub proof fn lemma_decompressed_width(rt: SyscallContext, curve: CurveType, ptr: u64, sign_bit: u64)
    ensures
        decompressed_bytes(rt, curve, ptr, sign_bit).len() == curve.limbs(),
        forall|i: int|
            curve.decompressed_y(flipped(compressed_x(rt, curve, ptr)), sign_bit as u32).len() <= i
                < curve.limbs() ==> #[trigger] decompressed_bytes(rt, curve, ptr, sign_bit)[i]
                == 0,
{
}

/// A pointer that is no multiple of 8 stops each handler, whatever else
/// holds.
pub proof fn lemma_misaligned_pointer_faults(
    rt: SyscallContext,
    curve: CurveType,
    ptr: u64,
    other: u64,
)
    requires
        ptr % 8 != 0,
    ensures
        add_fault(rt, curve, ptr, other) == Some(Fault::MisalignedPointer),
        add_fault(rt, curve, other, ptr) == Some(Fault::MisalignedPointer),
        double_fault(rt, curve, ptr) == Some(Fault::MisalignedPointer),
        decompress_fault(rt, curve, ptr, other) == Some(Fault::MisalignedPointer),
{
}

/// A sign bit above 1 stops a decompression at an aligned pointer, and a
/// curve without a formula stops one with a valid sign bit.
pub proof fn lemma_decompress_refusals(rt: SyscallContext, curve: CurveType, ptr: u64, sign_bit: u64)
    requires
        ptr % 8 == 0,
    ensures
        sign_bit > 1 ==> decompress_fault(rt, curve, ptr, sign_bit) == Some(Fault::InvalidSignBit),
        sign_bit <= 1 && (curve is Bn254 || curve is Ed25519) ==> decompress_fault(
            rt,
            curve,
            ptr,
            sign_bit,
        ) == Some(Fault::UnsupportedCurve),
{
}

/// An addition of the point at `ptr` to itself is stopped exactly where its
/// doubling is stopped or the clock cannot advance: on every curve a point
/// that can be doubled can be added to itself.
pub proof fn lemma_self_add_runs_where_double_runs(rt: SyscallContext, curve: CurveType, ptr: u64)
    ensures
        add_fault(rt, curve, ptr, ptr) is None <==> double_fault(rt, curve, ptr) is None && rt.clk
            < u64::MAX,
{
}

/// In an addition every word of the second operand is read at the clock at
/// which the instruction started and every word of the sum written exactly
/// one tick later, and the clock is that one tick further when the handler
/// returns.
pub proof fn lemma_add_one_tick(
    rt: SyscallContext,
    curve: CurveType,
    p_ptr: u64,
    q_ptr: u64,
    e: EllipticCurveAddEvent,
    after: SyscallContext,
)
    requires
        add_fault(rt, curve, p_ptr, q_ptr) is None,
        is_add_event(rt, curve, p_ptr, q_ptr, e),
        is_add_state(rt, curve, p_ptr, q_ptr, after),
    ensures
        e.clk == rt.clk,
        after.clk == e.clk + 1,
        forall|i: int|
            0 <= i < e.q_memory_records@.len() ==> (#[trigger] e.q_memory_records@[i]).timestamp
                == e.clk,
        forall|i: int|
            0 <= i < e.p_memory_records@.len() ==> (#[trigger] e.p_memory_records@[i]).timestamp
                == e.clk + 1,
{
}

} // verus!
