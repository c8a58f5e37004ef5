//! Big integers for the tests that the curve arithmetic asks of its
//! operands. The integers and their arithmetic are `num`'s, as `sp1_curves`
//! hands them on; each call stands here with what it computes.

use vstd::prelude::*;
use vstd::arithmetic::power::pow;
use sp1_curves::BigUint;
use sp1_primitives::consts::words_to_bytes_le_vec;
use crate::curve::{le_bytes_value, le_words_value};

verus! {

#[verifier::external_type_specification]
#[verifier::external_body]
pub struct ExBigUint(BigUint);

/// The number that a big integer holds.
pub uninterp spec fn big_value(n: BigUint) -> nat;

/// `BigUint::from_bytes_le` on the little-endian bytes of `words`, which
/// `words_to_bytes_le_vec` gives. Trusted: the integer is the number that the
/// words stand for.
#[verifier::external_body]
pub(crate) fn big_from_words(words: &Vec<u64>) -> (r: BigUint)
    ensures
        big_value(r) == le_words_value(words@),
{
    BigUint::from_bytes_le(&words_to_bytes_le_vec(words))
}

/// `BigUint::from_bytes_le`. Trusted: the integer is the number that the
/// little-endian bytes stand for.
#[verifier::external_body]
pub(crate) fn big_from_bytes_le(bytes: &Vec<u8>) -> (r: BigUint)
    ensures
        big_value(r) == le_bytes_value(bytes@),
{
    BigUint::from_bytes_le(bytes)
}

/// `+` on two `BigUint`. Trusted: the sum.
#[verifier::external_body]
pub(crate) fn big_add(a: &BigUint, b: &BigUint) -> (r: BigUint)
    ensures
        big_value(r) == big_value(*a) + big_value(*b),
{
    a + b
}

/// `*` on two `BigUint`. Trusted: the product.
#[verifier::external_body]
pub(crate) fn big_mul(a: &BigUint, b: &BigUint) -> (r: BigUint)
    ensures
        big_value(r) == big_value(*a) * big_value(*b),
{
    a * b
}

/// `%` on two `BigUint`, which panics on a zero divisor. Trusted: the
/// remainder.
#[verifier::external_body]
pub(crate) fn big_rem(a: &BigUint, m: &BigUint) -> (r: BigUint)
    requires
        big_value(*m) > 0,
    ensures
        big_value(r) == big_value(*a) % big_value(*m),
{
    a % m
}

/// `BigUint::modpow`, which panics on a zero modulus. Trusted: the power,
/// reduced.
#[verifier::external_body]
pub(crate) fn big_modpow(a: &BigUint, e: &BigUint, m: &BigUint) -> (r: BigUint)
    requires
        big_value(*m) > 0,
    ensures
        big_value(r) as int == pow(big_value(*a) as int, big_value(*e)) % (big_value(*m) as int),
{
    a.modpow(e, m)
}

/// `==` on two `BigUint`. Trusted: whether they hold the same number.
#[verifier::external_body]
pub(crate) fn big_eq(a: &BigUint, b: &BigUint) -> (r: bool)
    ensures
        r == (big_value(*a) == big_value(*b)),
{
    a == b
}

/// `<` on two `BigUint`. Trusted: whether the first holds the smaller number.
#[verifier::external_body]
pub(crate) fn big_lt(a: &BigUint, b: &BigUint) -> (r: bool)
    ensures
        r == (big_value(*a) < big_value(*b)),
{
    a < b
}

} // verus!
