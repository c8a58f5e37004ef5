use ec_events::curve::{resized, reversed, sub_words, CurveType, Decompressor};
use ec_events::events::{
    create_ec_add_event, create_ec_decompress_event, create_ec_double_event, Fault,
};
use ec_events::memory::SyscallContext;
use ec_events::records::{MemoryCell, MemoryLocalEvent, PageProtLocalEvent, PageProtRecord};
use sp1_curves::edwards::ed25519::{Ed25519, Ed25519BaseField};
use sp1_curves::params::{FieldParameters, NumLimbs, NumWords};
use sp1_curves::weierstrass::bls12_381::{Bls12381, Bls12381BaseField};
use sp1_curves::weierstrass::bn254::{Bn254, Bn254BaseField};
use sp1_curves::weierstrass::secp256k1::{Secp256k1, Secp256k1BaseField};
use sp1_curves::weierstrass::secp256r1::{Secp256r1, Secp256r1BaseField};
use sp1_curves::{AffinePoint, BigUint, EllipticCurve};
use typenum::Unsigned;

fn generator<E: EllipticCurve>() -> AffinePoint<E> {
    E::ec_generator()
}

fn twice<E: EllipticCurve>() -> AffinePoint<E> {
    E::ec_double(&E::ec_generator())
}

/// A memory of `len` zero words with `a` at byte address `at_a` and `b` at `at_b`.
fn memory_with(len: usize, at_a: u64, a: &[u64], at_b: u64, b: &[u64], clk: u64) -> SyscallContext {
    let mut words = vec![0u64; len];
    for (i, w) in a.iter().enumerate() {
        words[at_a as usize / 8 + i] = *w;
    }
    for (i, w) in b.iter().enumerate() {
        words[at_b as usize / 8 + i] = *w;
    }
    SyscallContext::new(&words, clk)
}

fn values(rt: &SyscallContext, addr: u64, len: usize) -> Vec<u64> {
    rt.memory[addr as usize / 8..addr as usize / 8 + len].iter().map(|c| c.value).collect()
}

fn check_add<E: EllipticCurve>(curve: CurveType) {
    let g = generator::<E>();
    let g2 = twice::<E>();
    let p = g.to_words_le();
    let q = g2.to_words_le();
    let n = p.len();
    let expected = (g + g2).to_words_le();
    let mut rt = memory_with(64, 16, &p, 256, &q, 100);
    let e = create_ec_add_event(&mut rt, curve, 16, 256).unwrap();
    assert_eq!(e.clk, 100);
    assert_eq!(rt.clk, 101);
    assert_eq!(e.p_ptr, 16);
    assert_eq!(e.q_ptr, 256);
    assert_eq!(e.p, p);
    assert_eq!(e.q, q);
    assert_eq!(e.p_memory_records.len(), n);
    assert_eq!(e.q_memory_records.len(), n);
    let written: Vec<u64> = e.p_memory_records.iter().map(|r| r.value).collect();
    assert_eq!(written, expected);
    assert_eq!(values(&rt, 16, n), expected);
    assert_eq!(values(&rt, 256, n), q);
    for (i, r) in e.q_memory_records.iter().enumerate() {
        assert_eq!(r.value, q[i]);
        assert_eq!(r.timestamp, 100);
        assert_eq!(r.prev_timestamp, 0);
    }
    for (i, r) in e.p_memory_records.iter().enumerate() {
        assert_eq!(r.prev_value, p[i]);
        assert_eq!(r.timestamp, 101);
        assert_eq!(r.prev_timestamp, 0);
    }
    assert_eq!(e.local_mem_access.len(), 2 * n);
    assert!(e.local_mem_access[..n].iter().all(|m| !m.is_write && !m.finalizing));
    assert!(e.local_mem_access[n..].iter().all(|m| m.is_write && m.finalizing));
    assert!(rt.local_mem_access.is_empty());
    assert!(rt.local_page_prot_access.is_empty());
}

fn check_double<E: EllipticCurve>(curve: CurveType) {
    let g = generator::<E>();
    let p = g.to_words_le();
    let n = p.len();
    let expected = E::ec_double(&g).to_words_le();
    let mut rt = memory_with(32, 8, &p, 8, &p, 7);
    let e = create_ec_double_event(&mut rt, curve, 8, 12345).unwrap();
    assert_eq!(e.clk, 7);
    assert_eq!(rt.clk, 7);
    assert_eq!(e.p_ptr, 8);
    assert_eq!(e.p, p);
    let written: Vec<u64> = e.p_memory_records.iter().map(|r| r.value).collect();
    assert_eq!(written, expected);
    assert_eq!(values(&rt, 8, n), expected);
    assert!(e.p_memory_records.iter().all(|r| r.timestamp == 7));
    assert_eq!(e.write_slice_page_prot_access, vec![PageProtRecord { page_idx: 0, timestamp: 7 }]);
    assert_eq!(e.local_mem_access.len(), n);
    assert_eq!(
        e.local_page_prot_access,
        vec![PageProtLocalEvent { page_idx: 0, timestamp: 7, is_write: true }]
    );
    assert!(rt.local_mem_access.is_empty());
}

fn le_padded(v: &BigUint, n: usize) -> Vec<u8> {
    let mut b = v.to_bytes_le();
    b.resize(n, 0);
    b
}

fn le_words(bytes: &[u8]) -> Vec<u64> {
    bytes.chunks(8).map(|c| u64::from_le_bytes(c.try_into().unwrap())).collect()
}

/// Decompresses `point` from its `x` and `sign` and checks that its `y` comes back.
fn check_decompress<E: EllipticCurve>(
    curve: CurveType,
    point: &AffinePoint<E>,
    sign: u64,
    limbs: usize,
) {
    let x_bytes = le_padded(&point.x, limbs);
    let y_bytes = le_padded(&point.y, limbs);
    let x_words = le_words(&x_bytes);
    let n = limbs / 8;
    let ptr: u64 = 64;
    let mut rt = memory_with(64, ptr + limbs as u64, &x_words, ptr + limbs as u64, &x_words, 9);
    let e = create_ec_decompress_event(&mut rt, curve, ptr, sign).unwrap();
    assert_eq!(e.clk, 9);
    assert_eq!(rt.clk, 10);
    assert_eq!(e.ptr, ptr);
    assert_eq!(e.sign_bit, sign == 1);
    assert_eq!(e.x_bytes, x_bytes);
    assert_eq!(e.decompressed_y_bytes.len(), limbs);
    assert_eq!(e.decompressed_y_bytes, y_bytes);
    assert_eq!(values(&rt, ptr, n), le_words(&y_bytes));
    assert_eq!(values(&rt, ptr + limbs as u64, n), x_words);
    assert_eq!(e.x_memory_records.len(), n);
    assert_eq!(e.y_memory_records.len(), n);
    assert!(e.x_memory_records.iter().all(|r| r.timestamp == 9));
    assert!(e.y_memory_records.iter().all(|r| r.timestamp == 10));
    let written: Vec<u64> = e.y_memory_records.iter().map(|r| r.value).collect();
    assert_eq!(written, le_words(&y_bytes));
    assert_eq!(e.local_mem_access.len(), 2 * n);
    assert!(e.local_mem_access[n..].iter().all(|m| m.is_write && !m.finalizing));
    assert!(rt.local_mem_access.is_empty());
}

#[test]
fn add_secp256k1() {
    check_add::<Secp256k1>(CurveType::Secp256k1);
}

#[test]
fn add_secp256r1() {
    check_add::<Secp256r1>(CurveType::Secp256r1);
}

#[test]
fn add_bn254() {
    check_add::<Bn254>(CurveType::Bn254);
}

#[test]
fn add_ed25519() {
    check_add::<Ed25519>(CurveType::Ed25519);
}

#[test]
fn add_bls12381() {
    check_add::<Bls12381>(CurveType::Bls12381);
}

#[test]
fn double_secp256k1() {
    check_double::<Secp256k1>(CurveType::Secp256k1);
}

#[test]
fn double_secp256r1() {
    check_double::<Secp256r1>(CurveType::Secp256r1);
}

#[test]
fn double_bn254() {
    check_double::<Bn254>(CurveType::Bn254);
}

#[test]
fn double_ed25519() {
    check_double::<Ed25519>(CurveType::Ed25519);
}

#[test]
fn double_bls12381() {
    check_double::<Bls12381>(CurveType::Bls12381);
}

#[test]
fn add_is_not_the_first_operand_again() {
    let p = generator::<Secp256k1>().to_words_le();
    let q = twice::<Secp256k1>().to_words_le();
    let mut rt = memory_with(32, 0, &p, 64, &q, 1);
    let e = create_ec_add_event(&mut rt, CurveType::Secp256k1, 0, 64).unwrap();
    let written: Vec<u64> = e.p_memory_records.iter().map(|r| r.value).collect();
    assert_ne!(written, p);
    assert_ne!(written, q);
}

#[test]
fn page_checks_of_read_come_before_those_of_write() {
    let p = generator::<Secp256k1>().to_words_le();
    let q = twice::<Secp256k1>().to_words_le();
    let mut rt = memory_with(1024, 4096, &p, 4096 + 512, &q, 40);
    let e = create_ec_add_event(&mut rt, CurveType::Secp256k1, 4096, 4096 + 512).unwrap();
    assert_eq!(
        e.page_prot_records.read_page_prot_records,
        vec![PageProtRecord { page_idx: 1, timestamp: 40 }]
    );
    assert_eq!(
        e.page_prot_records.write_page_prot_records,
        vec![PageProtRecord { page_idx: 1, timestamp: 41 }]
    );
    assert_eq!(
        e.local_page_prot_access,
        vec![
            PageProtLocalEvent { page_idx: 1, timestamp: 40, is_write: false },
            PageProtLocalEvent { page_idx: 1, timestamp: 41, is_write: true },
        ]
    );
    let read_at = e.page_prot_records.read_page_prot_records[0].timestamp;
    let write_at = e.page_prot_records.write_page_prot_records[0].timestamp;
    assert_eq!(write_at - read_at, 1);
}

#[test]
fn operand_across_a_page_boundary_is_checked_on_both_pages() {
    let p = generator::<Secp256k1>().to_words_le();
    let mut rt = memory_with(1024, 4096 - 32, &p, 0, &[], 3);
    let e = create_ec_double_event(&mut rt, CurveType::Secp256k1, 4096 - 32, 0).unwrap();
    assert_eq!(
        e.write_slice_page_prot_access,
        vec![
            PageProtRecord { page_idx: 0, timestamp: 3 },
            PageProtRecord { page_idx: 1, timestamp: 3 },
        ]
    );
}

#[test]
fn decompress_secp256k1_round_trip() {
    for point in [generator::<Secp256k1>(), twice::<Secp256k1>()] {
        let sign = u64::from(point.y.bit(0));
        check_decompress::<Secp256k1>(CurveType::Secp256k1, &point, sign, 32);
    }
}

#[test]
fn decompress_secp256r1_round_trip() {
    for point in [generator::<Secp256r1>(), twice::<Secp256r1>()] {
        let sign = u64::from(point.y.bit(0));
        check_decompress::<Secp256r1>(CurveType::Secp256r1, &point, sign, 32);
    }
}

#[test]
fn decompress_bls12381_round_trip() {
    for point in [generator::<Bls12381>(), twice::<Bls12381>()] {
        let neg = Bls12381BaseField::modulus() - &point.y;
        let sign = u64::from(point.y > neg);
        check_decompress::<Bls12381>(CurveType::Bls12381, &point, sign, 48);
    }
}

#[test]
fn decompress_other_sign_gives_the_opposite_point() {
    let g = generator::<Secp256k1>();
    let sign = u64::from(!g.y.bit(0));
    let x_words = le_words(&le_padded(&g.x, 32));
    let mut rt = memory_with(16, 32, &x_words, 32, &x_words, 0);
    let e = create_ec_decompress_event(&mut rt, CurveType::Secp256k1, 0, sign).unwrap();
    let expected = Secp256k1BaseField::modulus() - &g.y;
    assert_eq!(e.decompressed_y_bytes, le_padded(&expected, 32));
    assert_eq!(e.sign_bit, sign == 1);
}

#[test]
fn decompress_bls12381_is_48_bytes_wide() {
    let g = generator::<Bls12381>();
    let neg = Bls12381BaseField::modulus() - &g.y;
    let sign = u64::from(g.y > neg);
    let x_words = le_words(&le_padded(&g.x, 48));
    let mut rt = memory_with(16, 48, &x_words, 48, &x_words, 0);
    let e = create_ec_decompress_event(&mut rt, CurveType::Bls12381, 0, sign).unwrap();
    assert_eq!(e.x_bytes.len(), 48);
    assert_eq!(e.decompressed_y_bytes.len(), 48);
    assert_eq!(e.y_memory_records.len(), 6);
}

#[test]
fn resized_fills_with_zeros_and_cuts() {
    let short = vec![1u8, 2, 3];
    let wide = resized(&short, 48);
    assert_eq!(wide.len(), 48);
    assert_eq!(&wide[..3], &[1, 2, 3]);
    assert!(wide[3..].iter().all(|b| *b == 0));
    assert_eq!(resized(&short, 2), vec![1u8, 2]);
    assert_eq!(resized(&short, 0), Vec::<u8>::new());
    assert_eq!(resized(&short, 3), short);
}

#[test]
fn reversed_turns_bytes_round() {
    assert_eq!(reversed(&vec![1u8, 2, 3, 4]), vec![4u8, 3, 2, 1]);
    assert_eq!(reversed(&vec![]), Vec::<u8>::new());
    assert_eq!(reversed(&vec![9u8]), vec![9u8]);
}

#[test]
fn decompressor_y_bytes_are_little_endian() {
    let g = generator::<Secp256k1>();
    let mut x_be = le_padded(&g.x, 32);
    x_be.reverse();
    let y = Decompressor::Secp256k1.y_bytes(&x_be, u32::from(g.y.bit(0)));
    assert_eq!(y, g.y.to_bytes_le());
    assert_ne!(y, x_be);
}

#[test]
fn curves_with_and_without_decompression() {
    assert_eq!(CurveType::Secp256k1.decompressor(), Some(Decompressor::Secp256k1));
    assert_eq!(CurveType::Secp256r1.decompressor(), Some(Decompressor::Secp256r1));
    assert_eq!(CurveType::Bls12381.decompressor(), Some(Decompressor::Bls12381));
    assert_eq!(CurveType::Bn254.decompressor(), None);
    assert_eq!(CurveType::Ed25519.decompressor(), None);
}

#[test]
fn widths_are_those_of_the_curves() {
    assert_eq!(CurveType::Secp256k1.num_limbs(), <Secp256k1BaseField as NumLimbs>::Limbs::USIZE);
    assert_eq!(CurveType::Secp256r1.num_limbs(), <Secp256r1BaseField as NumLimbs>::Limbs::USIZE);
    assert_eq!(CurveType::Bn254.num_limbs(), <Bn254BaseField as NumLimbs>::Limbs::USIZE);
    assert_eq!(CurveType::Ed25519.num_limbs(), <Ed25519BaseField as NumLimbs>::Limbs::USIZE);
    assert_eq!(CurveType::Bls12381.num_limbs(), <Bls12381BaseField as NumLimbs>::Limbs::USIZE);
    assert_eq!(
        CurveType::Secp256k1.num_point_words(),
        <Secp256k1BaseField as NumWords>::WordsCurvePoint::USIZE
    );
    assert_eq!(
        CurveType::Bls12381.num_point_words(),
        <Bls12381BaseField as NumWords>::WordsCurvePoint::USIZE
    );
    assert_eq!(CurveType::Secp256k1.num_limbs(), 32);
    assert_eq!(CurveType::Bls12381.num_limbs(), 48);
    assert_eq!(CurveType::Secp256k1.num_point_words(), 8);
    assert_eq!(CurveType::Bls12381.num_point_words(), 12);
}

#[test]
fn misaligned_pointer_stops_every_handler_before_any_access() {
    let p = generator::<Secp256k1>().to_words_le();
    let before = memory_with(64, 0, &p, 64, &p, 11);
    for bad in [1u64, 4, 7, 9, 65, 4097] {
        let mut rt = before.clone();
        assert_eq!(
            create_ec_add_event(&mut rt, CurveType::Secp256k1, bad, 64),
            Err(Fault::MisalignedPointer)
        );
        assert_eq!(rt, before);
        assert_eq!(
            create_ec_add_event(&mut rt, CurveType::Secp256k1, 0, bad),
            Err(Fault::MisalignedPointer)
        );
        assert_eq!(rt, before);
        assert_eq!(
            create_ec_double_event(&mut rt, CurveType::Secp256k1, bad, 0),
            Err(Fault::MisalignedPointer)
        );
        assert_eq!(rt, before);
        assert_eq!(
            create_ec_decompress_event(&mut rt, CurveType::Secp256k1, bad, 0),
            Err(Fault::MisalignedPointer)
        );
        assert_eq!(rt, before);
        assert_eq!(
            create_ec_decompress_event(&mut rt, CurveType::Secp256k1, bad, 2),
            Err(Fault::MisalignedPointer)
        );
        assert_eq!(rt, before);
    }
}

#[test]
fn sign_bit_above_one_stops_decompression_before_any_access() {
    let g = generator::<Secp256k1>();
    let x_words = le_words(&le_padded(&g.x, 32));
    let before = memory_with(16, 32, &x_words, 32, &x_words, 0);
    for bad in [2u64, 3, 255, u64::MAX] {
        let mut rt = before.clone();
        assert_eq!(
            create_ec_decompress_event(&mut rt, CurveType::Secp256k1, 0, bad),
            Err(Fault::InvalidSignBit)
        );
        assert_eq!(rt, before);
        assert_eq!(
            create_ec_decompress_event(&mut rt, CurveType::Bn254, 0, bad),
            Err(Fault::InvalidSignBit)
        );
        assert_eq!(rt, before);
    }
}

#[test]
fn curve_without_decompression_is_refused() {
    let before = memory_with(16, 0, &[], 0, &[], 0);
    for curve in [CurveType::Bn254, CurveType::Ed25519] {
        for sign in [0u64, 1] {
            let mut rt = before.clone();
            assert_eq!(
                create_ec_decompress_event(&mut rt, curve, 0, sign),
                Err(Fault::UnsupportedCurve)
            );
            assert_eq!(rt, before);
        }
    }
}

#[test]
fn operand_outside_memory_is_refused() {
    let p = generator::<Secp256k1>().to_words_le();
    let before = memory_with(16, 0, &p, 64, &p, 0);
    let mut rt = before.clone();
    assert_eq!(create_ec_add_event(&mut rt, CurveType::Secp256k1, 0, 72), Err(Fault::OutOfRange));
    assert_eq!(create_ec_add_event(&mut rt, CurveType::Secp256k1, 128, 0), Err(Fault::OutOfRange));
    assert_eq!(create_ec_double_event(&mut rt, CurveType::Secp256k1, 72, 0), Err(Fault::OutOfRange));
    assert_eq!(
        create_ec_double_event(&mut rt, CurveType::Secp256k1, u64::MAX - 7, 0),
        Err(Fault::OutOfRange)
    );
    assert_eq!(
        create_ec_decompress_event(&mut rt, CurveType::Secp256k1, 72, 0),
        Err(Fault::OutOfRange)
    );
    assert_eq!(
        create_ec_decompress_event(&mut rt, CurveType::Secp256k1, u64::MAX - 7, 1),
        Err(Fault::OutOfRange)
    );
    assert_eq!(rt, before);
}

#[test]
fn clock_at_its_end_is_refused() {
    let p = generator::<Secp256k1>().to_words_le();
    let before = memory_with(16, 0, &p, 64, &p, u64::MAX);
    let mut rt = before.clone();
    assert_eq!(
        create_ec_add_event(&mut rt, CurveType::Secp256k1, 0, 64),
        Err(Fault::ClockExhausted)
    );
    assert_eq!(
        create_ec_decompress_event(&mut rt, CurveType::Secp256k1, 0, 0),
        Err(Fault::ClockExhausted)
    );
    assert_eq!(rt, before);
    // A doubling does not move the clock.
    assert!(create_ec_double_event(&mut rt, CurveType::Secp256k1, 0, 0).is_ok());
    assert_eq!(rt.clk, u64::MAX);
}

#[test]
fn port_reads_writes_and_flushes() {
    let mut rt = SyscallContext::new(&vec![10, 20, 30, 40], 5);
    assert_eq!(rt.memory[1], MemoryCell { value: 20, timestamp: 0 });
    assert!(rt.in_range(8, 3));
    assert!(rt.in_range(32, 0));
    assert!(!rt.in_range(8, 4));
    assert!(!rt.in_range(40, 0));
    assert_eq!(rt.slice_unsafe(8, 2), vec![20, 30]);
    assert!(rt.local_mem_access.is_empty());
    assert_eq!(rt.memory[1].timestamp, 0);

    let (records, words, pages) = rt.mr_slice(8, 2);
    assert_eq!(words, vec![20, 30]);
    assert_eq!(records.len(), 2);
    assert_eq!((records[1].value, records[1].timestamp, records[1].prev_timestamp), (30, 5, 0));
    assert_eq!(pages, vec![PageProtRecord { page_idx: 0, timestamp: 5 }]);
    assert_eq!(rt.memory[2], MemoryCell { value: 30, timestamp: 5 });
    assert_eq!(rt.memory[3], MemoryCell { value: 40, timestamp: 0 });

    rt.clk = 6;
    let (written, pages) = rt.mw_slice(16, &vec![7, 8], false);
    assert_eq!(written.len(), 2);
    assert_eq!(
        (written[0].value, written[0].timestamp, written[0].prev_value, written[0].prev_timestamp),
        (7, 6, 30, 5)
    );
    assert_eq!(
        (written[1].value, written[1].timestamp, written[1].prev_value, written[1].prev_timestamp),
        (8, 6, 40, 0)
    );
    assert_eq!(pages, vec![PageProtRecord { page_idx: 0, timestamp: 6 }]);
    assert_eq!(rt.memory[2], MemoryCell { value: 7, timestamp: 6 });

    let (mem, page) = rt.postprocess();
    assert_eq!(mem.len(), 4);
    assert_eq!(
        mem[0],
        MemoryLocalEvent {
            addr: 8,
            prev_value: 20,
            value: 20,
            timestamp: 5,
            is_write: false,
            finalizing: false
        }
    );
    assert_eq!(
        mem[3],
        MemoryLocalEvent {
            addr: 24,
            prev_value: 40,
            value: 8,
            timestamp: 6,
            is_write: true,
            finalizing: false
        }
    );
    assert_eq!(
        page,
        vec![
            PageProtLocalEvent { page_idx: 0, timestamp: 5, is_write: false },
            PageProtLocalEvent { page_idx: 0, timestamp: 6, is_write: true },
        ]
    );
    let (mem, page) = rt.postprocess();
    assert!(mem.is_empty());
    assert!(page.is_empty());
}

#[test]
fn empty_access_checks_no_page() {
    let mut rt = SyscallContext::new(&vec![1, 2], 0);
    let (records, words, pages) = rt.mr_slice(8, 0);
    assert!(records.is_empty());
    assert!(words.is_empty());
    assert!(pages.is_empty());
}

#[test]
fn decompress_fills_a_short_y_with_zeros() {
    let g = generator::<Secp256k1>();
    let mut point = twice::<Secp256k1>();
    let mut found = false;
    for _ in 0..4000 {
        if point.y.to_bytes_le().len() < 32 {
            found = true;
            break;
        }
        point = point + g.clone();
    }
    assert!(found);
    let sign = u64::from(point.y.bit(0));
    let x_words = le_words(&le_padded(&point.x, 32));
    let mut rt = memory_with(16, 32, &x_words, 32, &x_words, 0);
    let e = create_ec_decompress_event(&mut rt, CurveType::Secp256k1, 0, sign).unwrap();
    assert_eq!(e.decompressed_y_bytes.len(), 32);
    assert_eq!(e.decompressed_y_bytes[31], 0);
    assert_eq!(e.decompressed_y_bytes, le_padded(&point.y, 32));
    assert_eq!(BigUint::from_bytes_le(&e.decompressed_y_bytes), point.y);
}

fn negated<E: EllipticCurve>(point: &AffinePoint<E>, modulus: BigUint) -> Vec<u64> {
    let mut bytes = le_padded(&point.x, 32);
    bytes.extend(le_padded(&(modulus - &point.y), 32));
    le_words(&bytes)
}

#[test]
fn words_that_are_no_point_are_refused() {
    let g = generator::<Secp256k1>().to_words_le();
    let mut off = g.clone();
    off[7] ^= 1;
    let before = memory_with(32, 0, &g, 64, &off, 3);
    let mut rt = before.clone();
    assert_eq!(create_ec_add_event(&mut rt, CurveType::Secp256k1, 0, 64), Err(Fault::InvalidPoint));
    assert_eq!(create_ec_add_event(&mut rt, CurveType::Secp256k1, 64, 0), Err(Fault::InvalidPoint));
    assert_eq!(create_ec_double_event(&mut rt, CurveType::Secp256k1, 64, 0), Err(Fault::InvalidPoint));
    // Zeros are no point of a curve whose equation has a constant.
    assert_eq!(create_ec_double_event(&mut rt, CurveType::Secp256k1, 128, 0), Err(Fault::InvalidPoint));
    assert_eq!(create_ec_double_event(&mut rt, CurveType::Bls12381, 128, 0), Err(Fault::InvalidPoint));
    // A point of one curve is none of another.
    assert_eq!(create_ec_double_event(&mut rt, CurveType::Secp256r1, 0, 0), Err(Fault::InvalidPoint));
    assert_eq!(rt, before);
}

#[test]
fn coordinates_not_below_the_modulus_are_refused() {
    let g = generator::<Bn254>();
    let p = Bn254BaseField::modulus();
    let mut bytes = le_padded(&(&g.x + &p), 32);
    bytes.extend(le_padded(&g.y, 32));
    let shifted = le_words(&bytes);
    assert!(!CurveType::Bn254.check_doublable(&shifted));
    assert!(CurveType::Bn254.check_doublable(&g.to_words_le()));
}

#[test]
fn opposite_points_have_no_sum() {
    let g = generator::<Secp256k1>();
    let minus = negated(&g, Secp256k1BaseField::modulus());
    assert!(CurveType::Secp256k1.check_doublable(&minus));
    let before = memory_with(32, 0, &g.to_words_le(), 64, &minus, 3);
    let mut rt = before.clone();
    assert_eq!(create_ec_add_event(&mut rt, CurveType::Secp256k1, 0, 64), Err(Fault::InvalidPoint));
    assert_eq!(rt, before);
}

fn check_self_add<E: EllipticCurve>(curve: CurveType) {
    let p = generator::<E>().to_words_le();
    let n = p.len();
    let expected = twice::<E>().to_words_le();
    assert!(curve.check_addable(&p, &p));
    assert!(curve.is_same_point(&p, &p));
    assert_eq!(curve.add_words(&p, &p), expected);
    let mut rt = memory_with(32, 64, &p, 64, &p, 5);
    let added = create_ec_add_event(&mut rt, curve, 64, 64).unwrap();
    let mut rt2 = memory_with(32, 64, &p, 64, &p, 5);
    let doubled = create_ec_double_event(&mut rt2, curve, 64, 0).unwrap();
    assert_eq!(added.clk, 5);
    assert_eq!(rt.clk, 6);
    assert_eq!(added.p, p);
    assert_eq!(added.q, p);
    assert_eq!(added.p_ptr, added.q_ptr);
    let sum: Vec<u64> = added.p_memory_records.iter().map(|r| r.value).collect();
    let dbl: Vec<u64> = doubled.p_memory_records.iter().map(|r| r.value).collect();
    assert_eq!(sum, expected);
    assert_eq!(sum, dbl);
    assert_eq!(values(&rt, 64, n), values(&rt2, 64, n));
    for (i, r) in added.p_memory_records.iter().enumerate() {
        assert_eq!(r.prev_value, p[i]);
        assert_eq!(r.prev_timestamp, 5);
        assert_eq!(r.timestamp, 6);
    }
    assert_eq!(
        added.page_prot_records.read_page_prot_records,
        vec![PageProtRecord { page_idx: 0, timestamp: 5 }]
    );
    assert_eq!(
        added.page_prot_records.write_page_prot_records,
        vec![PageProtRecord { page_idx: 0, timestamp: 6 }]
    );
    // The same point at two places is doubled as well.
    let mut rt3 = memory_with(64, 0, &p, 256, &p, 5);
    let apart = create_ec_add_event(&mut rt3, curve, 0, 256).unwrap();
    let written: Vec<u64> = apart.p_memory_records.iter().map(|r| r.value).collect();
    assert_eq!(written, expected);
    assert_eq!(values(&rt3, 256, n), p);
}

#[test]
fn self_add_is_the_double_on_secp256k1() {
    check_self_add::<Secp256k1>(CurveType::Secp256k1);
}

#[test]
fn self_add_is_the_double_on_secp256r1() {
    check_self_add::<Secp256r1>(CurveType::Secp256r1);
}

#[test]
fn self_add_is_the_double_on_bn254() {
    check_self_add::<Bn254>(CurveType::Bn254);
}

#[test]
fn self_add_is_the_double_on_ed25519() {
    check_self_add::<Ed25519>(CurveType::Ed25519);
}

#[test]
fn self_add_is_the_double_on_bls12381() {
    check_self_add::<Bls12381>(CurveType::Bls12381);
}

#[test]
fn operands_of_the_wrong_length_or_curve_are_not_addable() {
    let k1 = generator::<Secp256k1>().to_words_le();
    let r1 = generator::<Secp256r1>().to_words_le();
    assert!(CurveType::Secp256r1.check_addable(&r1, &twice::<Secp256r1>().to_words_le()));
    assert!(!CurveType::Secp256r1.check_addable(&r1, &r1[..7].to_vec()));
    assert!(!CurveType::Bls12381.check_addable(&k1, &k1));
    assert!(!CurveType::Secp256r1.check_addable(&k1, &r1));
    assert!(!CurveType::Secp256r1.is_same_point(&r1, &twice::<Secp256r1>().to_words_le()));
}

#[test]
fn opposite_points_have_no_sum_on_any_weierstrass_curve() {
    let r1 = generator::<Secp256r1>();
    let r1_minus = negated(&r1, Secp256r1BaseField::modulus());
    assert!(CurveType::Secp256r1.check_doublable(&r1_minus));
    assert!(!CurveType::Secp256r1.check_addable(&r1.to_words_le(), &r1_minus));
    let bn = generator::<Bn254>();
    let bn_minus = negated(&bn, Bn254BaseField::modulus());
    assert!(CurveType::Bn254.check_doublable(&bn_minus));
    assert!(!CurveType::Bn254.check_addable(&bn.to_words_le(), &bn_minus));
    let bls = generator::<Bls12381>();
    let mut bytes = le_padded(&bls.x, 48);
    bytes.extend(le_padded(&(Bls12381BaseField::modulus() - &bls.y), 48));
    let bls_minus = le_words(&bytes);
    assert!(CurveType::Bls12381.check_doublable(&bls_minus));
    assert!(!CurveType::Bls12381.check_addable(&bls.to_words_le(), &bls_minus));
    let before = memory_with(32, 0, &r1.to_words_le(), 64, &r1_minus, 3);
    let mut rt = before.clone();
    assert_eq!(create_ec_add_event(&mut rt, CurveType::Secp256r1, 0, 64), Err(Fault::InvalidPoint));
    assert_eq!(rt, before);
    // On the Edwards curve opposite points have a sum.
    let ed = generator::<Ed25519>();
    let mut bytes = le_padded(&(Ed25519BaseField::modulus() - &ed.x), 32);
    bytes.extend(le_padded(&ed.y, 32));
    assert!(CurveType::Ed25519.check_addable(&ed.to_words_le(), &le_words(&bytes)));
}

#[test]
fn x_of_no_point_is_refused() {
    let p = Secp256k1BaseField::modulus();
    let half = (&p - 1u32) / 2u32;
    let mut squares = 0;
    let mut others = 0;
    for x in 1u64..40 {
        let big = BigUint::from(x);
        let rhs = (&big * &big * &big + 7u32) % &p;
        let square = rhs.modpow(&half, &p) == BigUint::from(1u32);
        let x_le = le_padded(&big, 32);
        assert_eq!(CurveType::Secp256k1.check_curve_x(&x_le), square);
        let x_words = le_words(&x_le);
        let before = memory_with(16, 32, &x_words, 32, &x_words, 0);
        let mut rt = before.clone();
        let r = create_ec_decompress_event(&mut rt, CurveType::Secp256k1, 0, 1);
        if square {
            squares += 1;
            let e = r.unwrap();
            let y = BigUint::from_bytes_le(&e.decompressed_y_bytes);
            assert_eq!((&y * &y) % &p, rhs);
            assert!(y.bit(0));
            assert!(e.sign_bit);
        } else {
            others += 1;
            assert_eq!(r, Err(Fault::InvalidPoint));
            assert_eq!(rt, before);
        }
    }
    assert!(squares > 0 && others > 0);
}

#[test]
fn x_not_below_the_modulus_is_refused() {
    let x_words = vec![u64::MAX; 4];
    let before = memory_with(16, 32, &x_words, 32, &x_words, 0);
    let mut rt = before.clone();
    assert_eq!(
        create_ec_decompress_event(&mut rt, CurveType::Secp256k1, 0, 0),
        Err(Fault::InvalidPoint)
    );
    assert_eq!(
        create_ec_decompress_event(&mut rt, CurveType::Secp256r1, 0, 0),
        Err(Fault::InvalidPoint)
    );
    let wide = vec![u64::MAX; 6];
    let before = memory_with(16, 48, &wide, 48, &wide, 0);
    let mut rt = before.clone();
    assert_eq!(
        create_ec_decompress_event(&mut rt, CurveType::Bls12381, 0, 0),
        Err(Fault::InvalidPoint)
    );
    assert_eq!(rt, before);
}

#[test]
fn generators_and_their_doubles_are_points() {
    assert!(CurveType::Secp256k1.check_doublable(&generator::<Secp256k1>().to_words_le()));
    assert!(CurveType::Secp256r1.check_doublable(&twice::<Secp256r1>().to_words_le()));
    assert!(CurveType::Bn254.check_doublable(&twice::<Bn254>().to_words_le()));
    assert!(CurveType::Ed25519.check_doublable(&twice::<Ed25519>().to_words_le()));
    assert!(CurveType::Bls12381.check_doublable(&twice::<Bls12381>().to_words_le()));
    assert!(CurveType::Bls12381.check_curve_x(&le_padded(&generator::<Bls12381>().x, 48)));
    assert!(CurveType::Secp256r1.check_curve_x(&le_padded(&generator::<Secp256r1>().x, 32)));
}

#[test]
fn sub_words_takes_a_run_of_words() {
    let words = vec![1u64, 2, 3, 4, 5];
    assert_eq!(sub_words(&words, 1, 3), vec![2u64, 3]);
    assert_eq!(sub_words(&words, 0, 5), words);
    assert_eq!(sub_words(&words, 5, 5), Vec::<u64>::new());
}
