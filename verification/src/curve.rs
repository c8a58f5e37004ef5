//! The curves, what their arithmetic accepts, and the calls into it.
//!
//! Points travel as little-endian words: the first half of a point's words is
//! `x`, the second half `y`. The arithmetic itself is done by `sp1_curves`;
//! this module says on which operands it may be called, tests operands for
//! that, and gives the results a name.

use vstd::prelude::*;
use vstd::arithmetic::power::pow;
use crate::bignum::{
    big_add, big_eq, big_from_bytes_le, big_from_words, big_lt, big_modpow, big_mul, big_rem,
    big_value,
};
use sp1_curves::BigUint;
use sp1_curves::edwards::ed25519::Ed25519;
use sp1_curves::weierstrass::bls12_381::{bls12381_decompress, Bls12381};
use sp1_curves::weierstrass::bn254::Bn254;
use sp1_curves::weierstrass::secp256k1::{secp256k1_decompress, Secp256k1};
use sp1_curves::weierstrass::secp256r1::{secp256r1_decompress, Secp256r1};
use sp1_curves::{AffinePoint, EllipticCurve};
use sp1_primitives::consts::{bytes_to_words_le_vec, words_to_bytes_le_vec};

verus! {

/// The curves that the precompiles know.
#[derive(Clone, Copy, Debug, PartialEq, Eq, Structural)]
pub enum CurveType {
    Secp256k1,
    Secp256r1,
    Bn254,
    Ed25519,
    Bls12381,
}

/// The number that little-endian words stand for.
pub open spec fn le_words_value(w: Seq<u64>) -> nat
    decreases w.len(),
{
    if w.len() == 0 {
        0
    } else {
        w[0] as nat + 0x1_0000_0000_0000_0000 * le_words_value(w.drop_first())
    }
}

/// The number that little-endian bytes stand for.
pub open spec fn le_bytes_value(b: Seq<u8>) -> nat
    decreases b.len(),
{
    if b.len() == 0 {
        0
    } else {
        b[0] as nat + 256 * le_bytes_value(b.drop_first())
    }
}

/// `s` back to front.
pub open spec fn flipped(s: Seq<u8>) -> Seq<u8> {
    Seq::new(s.len(), |i: int| s[s.len() - 1 - i])
}

/// `s` cut or filled with zeros to `n` bytes.
pub open spec fn zero_padded(s: Seq<u8>, n: nat) -> Seq<u8> {
    Seq::new(n, |i: int| if i < s.len() { s[i] } else { 0u8 })
}

/// What byte `k` of a word is worth.
pub open spec fn byte_place(k: int) -> nat {
    if k == 0 {
        0x1
    } else if k == 1 {
        0x100
    } else if k == 2 {
        0x1_0000
    } else if k == 3 {
        0x100_0000
    } else if k == 4 {
        0x1_0000_0000
    } else if k == 5 {
        0x100_0000_0000
    } else if k == 6 {
        0x1_0000_0000_0000
    } else {
        0x100_0000_0000_0000
    }
}

/// The bytes of `words`, each word in little-endian order.
pub open spec fn le_bytes_of_words(words: Seq<u64>) -> Seq<u8> {
    Seq::new(
        8 * words.len(),
        |i: int| ((words[i / 8] as nat / byte_place(i % 8)) % 256) as u8,
    )
}

/// The words that `bytes` hold, eight little-endian bytes each; what is left
/// after the last full word is dropped.
pub open spec fn words_of_le_bytes(bytes: Seq<u8>) -> Seq<u64> {
    Seq::new(
        bytes.len() / 8,
        |i: int| le_bytes_value(bytes.subrange(8 * i, 8 * i + 8)) as u64,
    )
}

impl CurveType {
    /// Bytes in an element of the base field.
    pub open spec fn limbs(self) -> nat {
        match self {
            CurveType::Bls12381 => 48,
            _ => 32,
        }
    }

    /// Words in a point: both coordinates.
    pub open spec fn point_words(self) -> nat {
        self.limbs() / 4
    }

    /// Whether a point of this curve can be decompressed.
    pub open spec fn decompresses(self) -> bool {
        self is Secp256k1 || self is Secp256r1 || self is Bls12381
    }

    /// The prime of the base field, as little-endian words.
    pub open spec fn modulus_words(self) -> Seq<u64> {
        match self {
            CurveType::Secp256k1 => seq![
                0xffff_fffe_ffff_fc2fu64,
                0xffff_ffff_ffff_ffffu64,
                0xffff_ffff_ffff_ffffu64,
                0xffff_ffff_ffff_ffffu64,
            ],
            CurveType::Secp256r1 => seq![
                0xffff_ffff_ffff_ffffu64,
                0x0000_0000_ffff_ffffu64,
                0x0000_0000_0000_0000u64,
                0xffff_ffff_0000_0001u64,
            ],
            CurveType::Bn254 => seq![
                0x3c20_8c16_d87c_fd47u64,
                0x9781_6a91_6871_ca8du64,
                0xb850_45b6_8181_585du64,
                0x3064_4e72_e131_a029u64,
            ],
            CurveType::Ed25519 => seq![
                0xffff_ffff_ffff_ffedu64,
                0xffff_ffff_ffff_ffffu64,
                0xffff_ffff_ffff_ffffu64,
                0x7fff_ffff_ffff_ffffu64,
            ],
            CurveType::Bls12381 => seq![
                0xb9fe_ffff_ffff_aaabu64,
                0x1eab_fffe_b153_ffffu64,
                0x6730_d2a0_f6b0_f624u64,
                0x6477_4b84_f385_12bfu64,
                0x4b1b_a7b6_434b_acd7u64,
                0x1a01_11ea_397f_e69au64,
            ],
        }
    }

    /// The prime of the base field.
    pub open spec fn modulus(self) -> nat {
        le_words_value(self.modulus_words())
    }

    /// The coefficient of `x` in a Weierstrass equation, as words: three less
    /// than the modulus on Secp256r1, zero on the others.
    pub open spec fn coeff_a_words(self) -> Seq<u64> {
        match self {
            CurveType::Secp256r1 => seq![
                0xffff_ffff_ffff_fffcu64,
                0x0000_0000_ffff_ffffu64,
                0x0000_0000_0000_0000u64,
                0xffff_ffff_0000_0001u64,
            ],
            _ => seq![0u64],
        }
    }

    /// The coefficient of `x` in a Weierstrass equation.
    pub open spec fn coeff_a(self) -> nat {
        le_words_value(self.coeff_a_words())
    }

    /// The constant of a Weierstrass equation, as words; on the Edwards curve
    /// its `d`.
    pub open spec fn coeff_b_words(self) -> Seq<u64> {
        match self {
            CurveType::Secp256k1 => seq![7u64],
            CurveType::Secp256r1 => seq![
                0x3bce_3c3e_27d2_604bu64,
                0x651d_06b0_cc53_b0f6u64,
                0xb3eb_bd55_7698_86bcu64,
                0x5ac6_35d8_aa3a_93e7u64,
            ],
            CurveType::Bn254 => seq![3u64],
            CurveType::Ed25519 => seq![
                0x75eb_4dca_1359_78a3u64,
                0x0070_0a4d_4141_d8abu64,
                0x8cc7_4079_7779_e898u64,
                0x5203_6cee_2b6f_fe73u64,
            ],
            CurveType::Bls12381 => seq![4u64],
        }
    }

    /// The constant of a Weierstrass equation; on the Edwards curve its `d`.
    pub open spec fn coeff_b(self) -> nat {
        le_words_value(self.coeff_b_words())
    }

    /// Half of the modulus less one, as little-endian words.
    pub open spec fn euler_words(self) -> Seq<u64> {
        (
            match self {
                CurveType::Secp256k1 => seq![
                    0xffff_ffff_7fff_fe17u64,
                    0xffff_ffff_ffff_ffffu64,
                    0xffff_ffff_ffff_ffffu64,
                    0x7fff_ffff_ffff_ffffu64,
                ],
                CurveType::Secp256r1 => seq![
                    0xffff_ffff_ffff_ffffu64,
                    0x0000_0000_7fff_ffffu64,
                    0x8000_0000_0000_0000u64,
                    0x7fff_ffff_8000_0000u64,
                ],
                CurveType::Bn254 => seq![
                    0x9e10_460b_6c3e_7ea3u64,
                    0xcbc0_b548_b438_e546u64,
                    0xdc28_22db_40c0_ac2eu64,
                    0x1832_2739_7098_d014u64,
                ],
                CurveType::Ed25519 => seq![
                    0xffff_ffff_ffff_fff6u64,
                    0xffff_ffff_ffff_ffffu64,
                    0xffff_ffff_ffff_ffffu64,
                    0x3fff_ffff_ffff_ffffu64,
                ],
                CurveType::Bls12381 => seq![
                    0xdcff_7fff_ffff_d555u64,
                    0x0f55_ffff_58a9_ffffu64,
                    0xb398_6950_7b58_7b12u64,
                    0xb23b_a5c2_79c2_895fu64,
                    0x258d_d3db_21a5_d66bu64,
                    0x0d00_88f5_1cbf_f34du64,
                ],
            }
        )
    }

    /// Half of the modulus less one: the exponent of Euler's criterion.
    pub open spec fn euler_exponent(self) -> nat {
        le_words_value(self.euler_words())
    }

    /// The right-hand side of the Weierstrass equation at `x`.
    pub open spec fn rhs(self, x: nat) -> nat {
        x * x * x + self.coeff_a() * x + self.coeff_b()
    }

    /// `(x, y)` is an affine point of the curve, with both coordinates below
    /// the modulus.
    pub open spec fn on_curve(self, x: nat, y: nat) -> bool {
        let p = self.modulus();
        &&& x < p
        &&& y < p
        &&& if self is Ed25519 {
            (y * y) % p == (1 + x * x + self.coeff_b() * (x * x) * (y * y)) % p
        } else {
            (y * y) % p == self.rhs(x) % p
        }
    }

    /// `x` is below the modulus and the right-hand side of the Weierstrass
    /// equation at `x` is a square other than zero, by Euler's criterion: `x`
    /// is the first coordinate of a point whose second coordinate is not
    /// zero.
    pub open spec fn is_curve_x(self, x: nat) -> bool {
        let p = self.modulus();
        &&& x < p
        &&& pow((self.rhs(x) % p) as int, self.euler_exponent()) % (p as int) == 1
    }

    /// `words` are a point of the curve.
    pub open spec fn is_point(self, words: Seq<u64>) -> bool {
        &&& words.len() == self.point_words()
        &&& self.on_curve(point_x(words), point_y(words))
    }

    /// The operands that the addition accepts: two points of the curve that
    /// have an affine sum. Equal points are accepted where the doubling
    /// accepts them. Of two different points, those with the same first
    /// coordinate are opposite and have no affine sum on a Weierstrass curve.
    pub open spec fn addable(self, p: Seq<u64>, q: Seq<u64>) -> bool {
        &&& self.is_point(p)
        &&& self.is_point(q)
        &&& if same_point(p, q) {
            self.doublable(p)
        } else {
            self is Ed25519 || point_x(p) != point_x(q)
        }
    }

    /// The words of `p + q`: the double of `p` where both are the same point,
    /// else what the curve's addition gives.
    pub open spec fn sum_words(self, p: Seq<u64>, q: Seq<u64>) -> Seq<u64> {
        if same_point(p, q) {
            ec_double_words(self, p)
        } else {
            ec_add_words(self, p, q)
        }
    }

    /// The operands that the doubling accepts.
    pub open spec fn doublable(self, p: Seq<u64>) -> bool {
        &&& self.is_point(p)
        &&& (self is Secp256k1 ==> point_y(p) != 0)
    }

    /// The sign that compression keeps of a point with the second coordinate
    /// `y`: on BLS12-381 whether `y` is the larger of `y` and `-y`, on the
    /// other curves whether `y` is odd.
    pub open spec fn sign_of(self, y: nat) -> bool {
        if self is Bls12381 {
            y > self.modulus() - y
        } else {
            y % 2 == 1
        }
    }

    /// The `y` that decompression gives for the big-endian `x_be` and `sign`,
    /// as little-endian bytes without trailing zeros; empty where the curve
    /// has no decompression.
    pub open spec fn decompressed_y(self, x_be: Seq<u8>, sign: u32) -> Seq<u8> {
        match self {
            CurveType::Secp256k1 => secp256k1_y_bytes(x_be, sign),
            CurveType::Secp256r1 => secp256r1_y_bytes(x_be, sign),
            CurveType::Bls12381 => bls12381_y_bytes(x_be, sign),
            _ => Seq::empty(),
        }
    }

    /// Bytes in an element of the base field.
    pub fn num_limbs(self) -> (r: usize)
        ensures
            r == self.limbs(),
            r == 32 || r == 48,
    {
        match self {
            CurveType::Bls12381 => 48,
            _ => 32,
        }
    }

    /// Words in a point.
    pub fn num_point_words(self) -> (r: usize)
        ensures
            r == self.point_words(),
            r == 8 || r == 12,
    {
        self.num_limbs() / 4
    }

    /// The prime of the base field, as words.
    fn modulus_limbs(self) -> (r: Vec<u64>)
        ensures
            r@ == self.modulus_words(),
    {
        match self {
            CurveType::Secp256k1 => vec![
                0xffff_fffe_ffff_fc2fu64,
                0xffff_ffff_ffff_ffffu64,
                0xffff_ffff_ffff_ffffu64,
                0xffff_ffff_ffff_ffffu64,
            ],
            CurveType::Secp256r1 => vec![
                0xffff_ffff_ffff_ffffu64,
                0x0000_0000_ffff_ffffu64,
                0x0000_0000_0000_0000u64,
                0xffff_ffff_0000_0001u64,
            ],
            CurveType::Bn254 => vec![
                0x3c20_8c16_d87c_fd47u64,
                0x9781_6a91_6871_ca8du64,
                0xb850_45b6_8181_585du64,
                0x3064_4e72_e131_a029u64,
            ],
            CurveType::Ed25519 => vec![
                0xffff_ffff_ffff_ffedu64,
                0xffff_ffff_ffff_ffffu64,
                0xffff_ffff_ffff_ffffu64,
                0x7fff_ffff_ffff_ffffu64,
            ],
            CurveType::Bls12381 => vec![
                0xb9fe_ffff_ffff_aaabu64,
                0x1eab_fffe_b153_ffffu64,
                0x6730_d2a0_f6b0_f624u64,
                0x6477_4b84_f385_12bfu64,
                0x4b1b_a7b6_434b_acd7u64,
                0x1a01_11ea_397f_e69au64,
            ],
        }
    }

    /// The coefficient of `x`, as words.
    fn coeff_a_limbs(self) -> (r: Vec<u64>)
        ensures
            r@ == self.coeff_a_words(),
    {
        match self {
            CurveType::Secp256r1 => vec![
                0xffff_ffff_ffff_fffcu64,
                0x0000_0000_ffff_ffffu64,
                0x0000_0000_0000_0000u64,
                0xffff_ffff_0000_0001u64,
            ],
            _ => vec![0u64],
        }
    }

    /// The constant of the equation, as words.
    fn coeff_b_limbs(self) -> (r: Vec<u64>)
        ensures
            r@ == self.coeff_b_words(),
    {
        match self {
            CurveType::Secp256k1 => vec![7u64],
            CurveType::Secp256r1 => vec![
                0x3bce_3c3e_27d2_604bu64,
                0x651d_06b0_cc53_b0f6u64,
                0xb3eb_bd55_7698_86bcu64,
                0x5ac6_35d8_aa3a_93e7u64,
            ],
            CurveType::Bn254 => vec![3u64],
            CurveType::Ed25519 => vec![
                0x75eb_4dca_1359_78a3u64,
                0x0070_0a4d_4141_d8abu64,
                0x8cc7_4079_7779_e898u64,
                0x5203_6cee_2b6f_fe73u64,
            ],
            CurveType::Bls12381 => vec![4u64],
        }
    }

    /// Half of the modulus less one, as words.
    fn euler_limbs(self) -> (r: Vec<u64>)
        ensures
            r@ == self.euler_words(),
    {
        match self {
            CurveType::Secp256k1 => vec![
                0xffff_ffff_7fff_fe17u64,
                0xffff_ffff_ffff_ffffu64,
                0xffff_ffff_ffff_ffffu64,
                0x7fff_ffff_ffff_ffffu64,
            ],
            CurveType::Secp256r1 => vec![
                0xffff_ffff_ffff_ffffu64,
                0x0000_0000_7fff_ffffu64,
                0x8000_0000_0000_0000u64,
                0x7fff_ffff_8000_0000u64,
            ],
            CurveType::Bn254 => vec![
                0x9e10_460b_6c3e_7ea3u64,
                0xcbc0_b548_b438_e546u64,
                0xdc28_22db_40c0_ac2eu64,
                0x1832_2739_7098_d014u64,
            ],
            CurveType::Ed25519 => vec![
                0xffff_ffff_ffff_fff6u64,
                0xffff_ffff_ffff_ffffu64,
                0xffff_ffff_ffff_ffffu64,
                0x3fff_ffff_ffff_ffffu64,
            ],
            CurveType::Bls12381 => vec![
                0xdcff_7fff_ffff_d555u64,
                0x0f55_ffff_58a9_ffffu64,
                0xb398_6950_7b58_7b12u64,
                0xb23b_a5c2_79c2_895fu64,
                0x258d_d3db_21a5_d66bu64,
                0x0d00_88f5_1cbf_f34du64,
            ],
        }
    }

    /// Whether `(x, y)` is a point of the curve.
    fn check_on_curve(self, x: &BigUint, y: &BigUint) -> (r: bool)
        ensures
            r == self.on_curve(big_value(*x), big_value(*y)),
    {
        let p = big_from_words(&self.modulus_limbs());
        if !big_lt(x, &p) || !big_lt(y, &p) {
            return false;
        }
        let b = big_from_words(&self.coeff_b_limbs());
        let yy = big_mul(y, y);
        let xx = big_mul(x, x);
        match self {
            CurveType::Ed25519 => {
                let one = big_one();
                let right = big_add(&big_add(&one, &xx), &big_mul(&big_mul(&b, &xx), &yy));
                big_eq(&big_rem(&yy, &p), &big_rem(&right, &p))
            },
            _ => {
                let a = big_from_words(&self.coeff_a_limbs());
                let right = big_add(&big_add(&big_mul(&xx, x), &big_mul(&a, x)), &b);
                big_eq(&big_rem(&yy, &p), &big_rem(&right, &p))
            },
        }
    }

    /// Whether the addition accepts `p` and `q`.
    pub fn check_addable(self, p: &Vec<u64>, q: &Vec<u64>) -> (r: bool)
        ensures
            r == self.addable(p@, q@),
    {
        let n = self.num_point_words();
        if p.len() != n || q.len() != n {
            return false;
        }
        let px = big_from_words(&sub_words(p, 0, n / 2));
        let py = big_from_words(&sub_words(p, n / 2, n));
        let qx = big_from_words(&sub_words(q, 0, n / 2));
        let qy = big_from_words(&sub_words(q, n / 2, n));
        if !self.check_on_curve(&px, &py) || !self.check_on_curve(&qx, &qy) {
            return false;
        }
        let same_x = big_eq(&px, &qx);
        let same_y = big_eq(&py, &qy);
        if same_x && same_y {
            match self {
                CurveType::Secp256k1 => {
                    let zero = big_zero();
                    !big_eq(&py, &zero)
                },
                _ => true,
            }
        } else {
            match self {
                CurveType::Ed25519 => true,
                _ => !same_x,
            }
        }
    }

    /// Whether `p` and `q`, each a point's words, hold the same point.
    pub fn is_same_point(self, p: &Vec<u64>, q: &Vec<u64>) -> (r: bool)
        requires
            p@.len() == self.point_words(),
            q@.len() == self.point_words(),
        ensures
            r == same_point(p@, q@),
    {
        let n = self.num_point_words();
        let px = big_from_words(&sub_words(p, 0, n / 2));
        let py = big_from_words(&sub_words(p, n / 2, n));
        let qx = big_from_words(&sub_words(q, 0, n / 2));
        let qy = big_from_words(&sub_words(q, n / 2, n));
        big_eq(&px, &qx) && big_eq(&py, &qy)
    }

    /// Whether the doubling accepts `p`.
    pub fn check_doublable(self, p: &Vec<u64>) -> (r: bool)
        ensures
            r == self.doublable(p@),
    {
        let n = self.num_point_words();
        if p.len() != n {
            return false;
        }
        let px = big_from_words(&sub_words(p, 0, n / 2));
        let py = big_from_words(&sub_words(p, n / 2, n));
        if !self.check_on_curve(&px, &py) {
            return false;
        }
        match self {
            CurveType::Secp256k1 => {
                let zero = big_zero();
                !big_eq(&py, &zero)
            },
            _ => true,
        }
    }

    /// Whether the little-endian bytes `x_le` are the first coordinate of a
    /// point that decompression finds.
    pub fn check_curve_x(self, x_le: &Vec<u8>) -> (r: bool)
        ensures
            r == self.is_curve_x(le_bytes_value(x_le@)),
    {
        let p = big_from_words(&self.modulus_limbs());
        let x = big_from_bytes_le(x_le);
        if !big_lt(&x, &p) {
            return false;
        }
        let a = big_from_words(&self.coeff_a_limbs());
        let b = big_from_words(&self.coeff_b_limbs());
        let right = big_add(&big_add(&big_mul(&big_mul(&x, &x), &x), &big_mul(&a, &x)), &b);
        let e = big_from_words(&self.euler_limbs());
        let one = big_one();
        big_eq(&big_modpow(&big_rem(&right, &p), &e, &p), &one)
    }

    /// The sum of two points, as words. A point added to itself is doubled;
    /// only different points go to the curve's addition.
    pub fn add_words(self, p: &Vec<u64>, q: &Vec<u64>) -> (r: Vec<u64>)
        requires
            self.addable(p@, q@),
        ensures
            r@ == self.sum_words(p@, q@),
            r@.len() == self.point_words(),
    {
        if self.is_same_point(p, q) {
            return self.double_words(p);
        }
        match self {
            CurveType::Secp256k1 => secp256k1_add(p, q),
            CurveType::Secp256r1 => secp256r1_add(p, q),
            CurveType::Bn254 => bn254_add(p, q),
            CurveType::Ed25519 => ed25519_add(p, q),
            CurveType::Bls12381 => bls12381_add(p, q),
        }
    }

    /// Twice a point, as words.
    pub fn double_words(self, p: &Vec<u64>) -> (r: Vec<u64>)
        requires
            self.doublable(p@),
        ensures
            r@ == ec_double_words(self, p@),
            r@.len() == self.point_words(),
    {
        match self {
            CurveType::Secp256k1 => secp256k1_double(p),
            CurveType::Secp256r1 => secp256r1_double(p),
            CurveType::Bn254 => bn254_double(p),
            CurveType::Ed25519 => ed25519_double(p),
            CurveType::Bls12381 => bls12381_double(p),
        }
    }

    /// The decompression of this curve, if it has one.
    pub fn decompressor(self) -> (r: Option<Decompressor>)
        ensures
            r is Some <==> self.decompresses(),
            r is Some ==> r->Some_0.curve() == self,
    {
        match self {
            CurveType::Secp256k1 => Some(Decompressor::Secp256k1),
            CurveType::Secp256r1 => Some(Decompressor::Secp256r1),
            CurveType::Bls12381 => Some(Decompressor::Bls12381),
            _ => None,
        }
    }
}

/// The decompression formulas, one for each curve that has one.
#[derive(Clone, Copy, Debug, PartialEq, Eq, Structural)]
pub enum Decompressor {
    Secp256k1,
    Secp256r1,
    Bls12381,
}

impl Decompressor {
    /// The curve whose points this formula decompresses.
    pub open spec fn curve(self) -> CurveType {
        match self {
            Decompressor::Secp256k1 => CurveType::Secp256k1,
            Decompressor::Secp256r1 => CurveType::Secp256r1,
            Decompressor::Bls12381 => CurveType::Bls12381,
        }
    }

    /// The `y` of the point with the big-endian first coordinate `x_be` and
    /// the given sign, as little-endian bytes.
    pub fn y_bytes(self, x_be: &Vec<u8>, sign: u32) -> (r: Vec<u8>)
        requires
            x_be@.len() == self.curve().limbs(),
            sign <= 1,
            self.curve().is_curve_x(le_bytes_value(flipped(x_be@))),
        ensures
            r@ == self.curve().decompressed_y(x_be@, sign),
            r@.len() <= self.curve().limbs(),
            self.curve().on_curve(le_bytes_value(flipped(x_be@)), le_bytes_value(r@)),
            self.curve().sign_of(le_bytes_value(r@)) == (sign == 1),
    {
        match self {
            Decompressor::Secp256k1 => secp256k1_y(x_be, sign),
            Decompressor::Secp256r1 => secp256r1_y(x_be, sign),
            Decompressor::Bls12381 => bls12381_y(x_be, sign),
        }
    }
}

/// `p` and `q` hold the same point.
pub open spec fn same_point(p: Seq<u64>, q: Seq<u64>) -> bool {
    point_x(p) == point_x(q) && point_y(p) == point_y(q)
}

/// The first coordinate of a point given as words.
pub open spec fn point_x(words: Seq<u64>) -> nat {
    le_words_value(words.subrange(0, words.len() as int / 2))
}

/// The second coordinate of a point given as words.
pub open spec fn point_y(words: Seq<u64>) -> nat {
    le_words_value(words.subrange(words.len() as int / 2, words.len() as int))
}

/// The words of the sum that the curve's addition computes for two different
/// points given as words.
pub uninterp spec fn ec_add_words(curve: CurveType, p: Seq<u64>, q: Seq<u64>) -> Seq<u64>;

/// The words of the point that the curve's doubling computes.
pub uninterp spec fn ec_double_words(curve: CurveType, p: Seq<u64>) -> Seq<u64>;

/// The little-endian bytes of the `y` that Secp256k1 decompression computes.
pub uninterp spec fn secp256k1_y_bytes(x_be: Seq<u8>, sign: u32) -> Seq<u8>;

/// The little-endian bytes of the `y` that Secp256r1 decompression computes.
pub uninterp spec fn secp256r1_y_bytes(x_be: Seq<u8>, sign: u32) -> Seq<u8>;

/// The little-endian bytes of the `y` that BLS12-381 decompression computes.
pub uninterp spec fn bls12381_y_bytes(x_be: Seq<u8>, sign: u32) -> Seq<u8>;

/// `AffinePoint::<Secp256k1>::from_words_le` on both operands, their `+`, and
/// `to_words_le` on the sum. Trusted: the result has the name above and is
/// eight words long; on two different points of the curve with different
/// first coordinates the call returns.
#[verifier::external_body]
fn secp256k1_add(p: &Vec<u64>, q: &Vec<u64>) -> (r: Vec<u64>)
    requires
        CurveType::Secp256k1.addable(p@, q@),
        !same_point(p@, q@),
    ensures
        r@ == ec_add_words(CurveType::Secp256k1, p@, q@),
        r@.len() == 8,
{
    (AffinePoint::<Secp256k1>::from_words_le(p) + AffinePoint::<Secp256k1>::from_words_le(q))
        .to_words_le()
}

/// `AffinePoint::<Secp256r1>::from_words_le`, `+` and `to_words_le`. Trusted:
/// the result has the name above and is eight words long; the call, which
/// panics on equal points, returns on two different points of the curve.
#[verifier::external_body]
fn secp256r1_add(p: &Vec<u64>, q: &Vec<u64>) -> (r: Vec<u64>)
    requires
        CurveType::Secp256r1.addable(p@, q@),
        !same_point(p@, q@),
    ensures
        r@ == ec_add_words(CurveType::Secp256r1, p@, q@),
        r@.len() == 8,
{
    (AffinePoint::<Secp256r1>::from_words_le(p) + AffinePoint::<Secp256r1>::from_words_le(q))
        .to_words_le()
}

/// `AffinePoint::<Bn254>::from_words_le`, `+` and `to_words_le`. Trusted: the
/// result has the name above and is eight words long; the call, which panics
/// on equal points, returns on two different points of the curve.
#[verifier::external_body]
fn bn254_add(p: &Vec<u64>, q: &Vec<u64>) -> (r: Vec<u64>)
    requires
        CurveType::Bn254.addable(p@, q@),
        !same_point(p@, q@),
    ensures
        r@ == ec_add_words(CurveType::Bn254, p@, q@),
        r@.len() == 8,
{
    (AffinePoint::<Bn254>::from_words_le(p) + AffinePoint::<Bn254>::from_words_le(q)).to_words_le()
}

/// `AffinePoint::<Ed25519>::from_words_le`, `+` and `to_words_le`. Trusted:
/// the result has the name above and is eight words long; on two different
/// points of the curve the call returns.
#[verifier::external_body]
fn ed25519_add(p: &Vec<u64>, q: &Vec<u64>) -> (r: Vec<u64>)
    requires
        CurveType::Ed25519.addable(p@, q@),
        !same_point(p@, q@),
    ensures
        r@ == ec_add_words(CurveType::Ed25519, p@, q@),
        r@.len() == 8,
{
    (AffinePoint::<Ed25519>::from_words_le(p) + AffinePoint::<Ed25519>::from_words_le(q))
        .to_words_le()
}

/// `AffinePoint::<Bls12381>::from_words_le`, `+` and `to_words_le`. Trusted:
/// the result has the name above and is twelve words long; the call, which
/// panics on equal points, returns on two different points of the curve.
#[verifier::external_body]
fn bls12381_add(p: &Vec<u64>, q: &Vec<u64>) -> (r: Vec<u64>)
    requires
        CurveType::Bls12381.addable(p@, q@),
        !same_point(p@, q@),
    ensures
        r@ == ec_add_words(CurveType::Bls12381, p@, q@),
        r@.len() == 12,
{
    (AffinePoint::<Bls12381>::from_words_le(p) + AffinePoint::<Bls12381>::from_words_le(q))
        .to_words_le()
}

/// `Secp256k1::ec_double` between `from_words_le` and `to_words_le`. Trusted:
/// the result has the name above and is eight words long.
#[verifier::external_body]
fn secp256k1_double(p: &Vec<u64>) -> (r: Vec<u64>)
    requires
        CurveType::Secp256k1.doublable(p@),
    ensures
        r@ == ec_double_words(CurveType::Secp256k1, p@),
        r@.len() == 8,
{
    Secp256k1::ec_double(&AffinePoint::<Secp256k1>::from_words_le(p)).to_words_le()
}

/// `Secp256r1::ec_double` between `from_words_le` and `to_words_le`. Trusted:
/// the result has the name above and is eight words long.
#[verifier::external_body]
fn secp256r1_double(p: &Vec<u64>) -> (r: Vec<u64>)
    requires
        CurveType::Secp256r1.doublable(p@),
    ensures
        r@ == ec_double_words(CurveType::Secp256r1, p@),
        r@.len() == 8,
{
    Secp256r1::ec_double(&AffinePoint::<Secp256r1>::from_words_le(p)).to_words_le()
}

/// `Bn254::ec_double` between `from_words_le` and `to_words_le`. Trusted: the
/// result has the name above and is eight words long.
#[verifier::external_body]
fn bn254_double(p: &Vec<u64>) -> (r: Vec<u64>)
    requires
        CurveType::Bn254.doublable(p@),
    ensures
        r@ == ec_double_words(CurveType::Bn254, p@),
        r@.len() == 8,
{
    Bn254::ec_double(&AffinePoint::<Bn254>::from_words_le(p)).to_words_le()
}

/// `Ed25519::ec_double` between `from_words_le` and `to_words_le`. Trusted:
/// the result has the name above and is eight words long.
#[verifier::external_body]
fn ed25519_double(p: &Vec<u64>) -> (r: Vec<u64>)
    requires
        CurveType::Ed25519.doublable(p@),
    ensures
        r@ == ec_double_words(CurveType::Ed25519, p@),
        r@.len() == 8,
{
    Ed25519::ec_double(&AffinePoint::<Ed25519>::from_words_le(p)).to_words_le()
}

/// `Bls12381::ec_double` between `from_words_le` and `to_words_le`. Trusted:
/// the result has the name above and is twelve words long.
#[verifier::external_body]
fn bls12381_double(p: &Vec<u64>) -> (r: Vec<u64>)
    requires
        CurveType::Bls12381.doublable(p@),
    ensures
        r@ == ec_double_words(CurveType::Bls12381, p@),
        r@.len() == 12,
{
    Bls12381::ec_double(&AffinePoint::<Bls12381>::from_words_le(p)).to_words_le()
}

/// `secp256k1_decompress`, then `to_bytes_le` on the point's `y`. Trusted: the
/// bytes have the name above; the call returns where `x_be` is 32 bytes that
/// are below the modulus and give the curve's equation a right-hand side that
/// is a square other than zero; `y` is below the modulus, so its
/// bytes are at most 32, lies on the curve with that `x`, and is odd exactly
/// where `sign` is 1.
#[verifier::external_body]
fn secp256k1_y(x_be: &Vec<u8>, sign: u32) -> (r: Vec<u8>)
    requires
        x_be@.len() == 32,
        sign <= 1,
        CurveType::Secp256k1.is_curve_x(le_bytes_value(flipped(x_be@))),
    ensures
        r@ == secp256k1_y_bytes(x_be@, sign),
        r@.len() <= 32,
        CurveType::Secp256k1.on_curve(le_bytes_value(flipped(x_be@)), le_bytes_value(r@)),
        CurveType::Secp256k1.sign_of(le_bytes_value(r@)) == (sign == 1),
{
    secp256k1_decompress::<Secp256k1>(x_be, sign).y.to_bytes_le()
}

/// `secp256r1_decompress`, then `to_bytes_le` on the point's `y`. Trusted: the
/// bytes have the name above; the call returns where `x_be` is 32 bytes that
/// are below the modulus and give the curve's equation a right-hand side that
/// is a square other than zero; `y` is below the modulus, so its
/// bytes are at most 32, lies on the curve with that `x`, and is odd exactly
/// where `sign` is 1.
#[verifier::external_body]
fn secp256r1_y(x_be: &Vec<u8>, sign: u32) -> (r: Vec<u8>)
    requires
        x_be@.len() == 32,
        sign <= 1,
        CurveType::Secp256r1.is_curve_x(le_bytes_value(flipped(x_be@))),
    ensures
        r@ == secp256r1_y_bytes(x_be@, sign),
        r@.len() <= 32,
        CurveType::Secp256r1.on_curve(le_bytes_value(flipped(x_be@)), le_bytes_value(r@)),
        CurveType::Secp256r1.sign_of(le_bytes_value(r@)) == (sign == 1),
{
    secp256r1_decompress::<Secp256r1>(x_be, sign).y.to_bytes_le()
}

/// `bls12381_decompress`, then `to_bytes_le` on the point's `y`. Trusted: the
/// bytes have the name above; the call returns where `x_be` is 48 bytes that
/// are below the modulus and give the curve's equation a right-hand side that
/// is a square other than zero; `y` is below the modulus, so its
/// bytes are at most 48, lies on the curve with that `x`, and is the larger
/// of `y` and `-y` exactly where `sign` is 1.
#[verifier::external_body]
fn bls12381_y(x_be: &Vec<u8>, sign: u32) -> (r: Vec<u8>)
    requires
        x_be@.len() == 48,
        sign <= 1,
        CurveType::Bls12381.is_curve_x(le_bytes_value(flipped(x_be@))),
    ensures
        r@ == bls12381_y_bytes(x_be@, sign),
        r@.len() <= 48,
        CurveType::Bls12381.on_curve(le_bytes_value(flipped(x_be@)), le_bytes_value(r@)),
        CurveType::Bls12381.sign_of(le_bytes_value(r@)) == (sign == 1),
{
    bls12381_decompress::<Bls12381>(x_be, sign).y.to_bytes_le()
}

/// `sp1_primitives::consts::words_to_bytes_le_vec`. Trusted: the bytes of
/// each word in little-endian order, the words in their order.
#[verifier::external_body]
pub(crate) fn words_to_bytes_le(words: &Vec<u64>) -> (r: Vec<u8>)
    ensures
        r@ == le_bytes_of_words(words@),
{
    words_to_bytes_le_vec(words)
}

/// `sp1_primitives::consts::bytes_to_words_le_vec`. Trusted: one word for
/// each full run of eight bytes, read in little-endian order.
#[verifier::external_body]
pub(crate) fn bytes_to_words_le(bytes: &Vec<u8>) -> (r: Vec<u64>)
    ensures
        r@ == words_of_le_bytes(bytes@),
{
    bytes_to_words_le_vec(bytes)
}

/// `bytes` back to front.
pub fn reversed(bytes: &Vec<u8>) -> (r: Vec<u8>)
    ensures
        r@ == flipped(bytes@),
{
    let n = bytes.len();
    let mut out: Vec<u8> = Vec::new();
    let mut i: usize = 0;
    while i < n
        invariant
            i <= n,
            n == bytes@.len(),
            out@ =~= Seq::new(i as nat, |k: int| bytes@[n - 1 - k]),
        decreases n - i,
    {
        out.push(bytes[n - 1 - i]);
        i += 1;
    }
    out
}

/// `bytes` cut or filled with zeros to `n` bytes.
pub fn resized(bytes: &Vec<u8>, n: usize) -> (r: Vec<u8>)
    ensures
        r@ == zero_padded(bytes@, n as nat),
{
    let mut out: Vec<u8> = Vec::new();
    let mut i: usize = 0;
    while i < n
        invariant
            i <= n,
            out@ =~= zero_padded(bytes@, i as nat),
        decreases n - i,
    {
        let b: u8 = if i < bytes.len() {
            bytes[i]
        } else {
            0
        };
        out.push(b);
        i += 1;
    }
    out
}

/// Zeros behind the last byte do not change the number that little-endian
/// bytes stand for.
pub proof fn lemma_zero_padded_value(s: Seq<u8>, n: nat)
    requires
        s.len() <= n,
    ensures
        le_bytes_value(zero_padded(s, n)) == le_bytes_value(s),
    decreases n,
{
    if n == 0 {
        assert(zero_padded(s, n) =~= s);
    } else if s.len() == 0 {
        assert(zero_padded(s, n).drop_first() =~= zero_padded(s, (n - 1) as nat));
        lemma_zero_padded_value(s, (n - 1) as nat);
    } else {
        assert(zero_padded(s, n).drop_first() =~= zero_padded(s.drop_first(), (n - 1) as nat));
        lemma_zero_padded_value(s.drop_first(), (n - 1) as nat);
    }
}

/// The big integer 0.
fn big_zero() -> (r: BigUint)
    ensures
        big_value(r) == 0,
{
    let words: Vec<u64> = Vec::new();
    big_from_words(&words)
}

/// The big integer 1.
fn big_one() -> (r: BigUint)
    ensures
        big_value(r) == 1,
{
    let words: Vec<u64> = vec![1u64];
    proof {
        assert(words@ =~= seq![1u64]);
        lemma_single_word(1u64);
    }
    big_from_words(&words)
}

/// The words of `words` from `from` up to `to`.
pub fn sub_words(words: &Vec<u64>, from: usize, to: usize) -> (r: Vec<u64>)
    requires
        from <= to <= words@.len(),
    ensures
        r@ == words@.subrange(from as int, to as int),
{
    let mut out: Vec<u64> = Vec::new();
    let mut i: usize = from;
    while i < to
        invariant
            from <= i <= to,
            to <= words@.len(),
            out@ =~= words@.subrange(from as int, i as int),
        decreases to - i,
    {
        out.push(words[i]);
        i += 1;
    }
    out
}

/// A single word stands for itself.
pub proof fn lemma_single_word(w: u64)
    ensures
        le_words_value(seq![w]) == w,
{
    reveal_with_fuel(le_words_value, 2);
    assert(seq![w].drop_first().len() == 0);
}

} // verus!
