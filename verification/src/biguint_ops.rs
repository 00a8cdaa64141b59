//! The arbitrary-precision arithmetic that this library takes from `num_bigint`.
//!
//! Every function here is trusted: its body calls `num_bigint::BigUint` and its contract
//! restates what that crate documents, over the big-endian model of `big_endian`.
//! Numbers cross this boundary as big-endian byte strings: they go in through
//! `BigUint::from_bytes_be` and come out through `BigUint::to_bytes_be`, which both take
//! the first byte for the most significant.

use vstd::prelude::*;
use vstd::arithmetic::power::pow;
use vstd::arithmetic::power2::pow2;
use crate::big_endian::nat_of_be;

verus! {

/// `BigUint::modpow`: `(base ^ exponent) % modulus`. The outside function panics on a
/// zero modulus, which the precondition excludes.
#[verifier::external_body]
pub(crate) fn be_modpow(base: &[u8], exponent: &[u8], modulus: &[u8]) -> (out: Vec<u8>)
    requires
        nat_of_be(modulus@) != 0,
    ensures
        nat_of_be(out@) == pow(nat_of_be(base@) as int, nat_of_be(exponent@)) % (nat_of_be(
            modulus@,
        ) as int),
{
    let b = num_bigint::BigUint::from_bytes_be(base);
    let e = num_bigint::BigUint::from_bytes_be(exponent);
    let m = num_bigint::BigUint::from_bytes_be(modulus);
    b.modpow(&e, &m).to_bytes_be()
}

/// `BigUint`'s `*`: the product.
#[verifier::external_body]
pub(crate) fn be_mul(a: &[u8], b: &[u8]) -> (out: Vec<u8>)
    ensures
        nat_of_be(out@) == nat_of_be(a@) * nat_of_be(b@),
{
    let x = num_bigint::BigUint::from_bytes_be(a);
    let y = num_bigint::BigUint::from_bytes_be(b);
    (x * y).to_bytes_be()
}

/// `BigUint`'s `+`: the sum.
#[verifier::external_body]
pub(crate) fn be_add(a: &[u8], b: &[u8]) -> (out: Vec<u8>)
    ensures
        nat_of_be(out@) == nat_of_be(a@) + nat_of_be(b@),
{
    let x = num_bigint::BigUint::from_bytes_be(a);
    let y = num_bigint::BigUint::from_bytes_be(b);
    (x + y).to_bytes_be()
}

/// `BigUint`'s `-`: the difference. The outside function panics when the result would be
/// negative, which the precondition excludes.
#[verifier::external_body]
pub(crate) fn be_sub(a: &[u8], b: &[u8]) -> (out: Vec<u8>)
    requires
        nat_of_be(b@) <= nat_of_be(a@),
    ensures
        nat_of_be(out@) == nat_of_be(a@) - nat_of_be(b@),
{
    let x = num_bigint::BigUint::from_bytes_be(a);
    let y = num_bigint::BigUint::from_bytes_be(b);
    (x - y).to_bytes_be()
}

/// `BigUint`'s `%`: the remainder. The outside function panics on a zero divisor, which
/// the precondition excludes.
#[verifier::external_body]
pub(crate) fn be_rem(a: &[u8], m: &[u8]) -> (out: Vec<u8>)
    requires
        nat_of_be(m@) != 0,
    ensures
        nat_of_be(out@) == nat_of_be(a@) % nat_of_be(m@),
{
    let x = num_bigint::BigUint::from_bytes_be(a);
    let y = num_bigint::BigUint::from_bytes_be(m);
    (x % y).to_bytes_be()
}

/// `BigUint`'s `>>`: the quotient by `2^shift`, rounded down.
#[verifier::external_body]
pub(crate) fn be_shr(a: &[u8], shift: u64) -> (out: Vec<u8>)
    ensures
        nat_of_be(out@) == nat_of_be(a@) / pow2(shift as nat),
{
    let x = num_bigint::BigUint::from_bytes_be(a);
    (x >> shift).to_bytes_be()
}

/// `BigUint`'s `<`: the numbers are ordered by value.
#[verifier::external_body]
pub(crate) fn be_lt(a: &[u8], b: &[u8]) -> (out: bool)
    ensures
        out == (nat_of_be(a@) < nat_of_be(b@)),
{
    let x = num_bigint::BigUint::from_bytes_be(a);
    let y = num_bigint::BigUint::from_bytes_be(b);
    x < y
}

/// `BigUint::bits`: the fewest bits that express the number, zero for zero.
#[verifier::external_body]
pub(crate) fn be_bits(a: &[u8]) -> (out: u64)
    ensures
        nat_of_be(a@) == 0 ==> out == 0,
        nat_of_be(a@) > 0 ==> out >= 1 && pow2((out - 1) as nat) <= nat_of_be(a@) < pow2(
            out as nat,
        ),
{
    num_bigint::BigUint::from_bytes_be(a).bits()
}

/// `BigUint::trailing_zeros`: how many least-significant bits are zero, `None` for zero.
#[verifier::external_body]
pub(crate) fn be_trailing_zeros(a: &[u8]) -> (out: Option<u64>)
    ensures
        out is None <==> nat_of_be(a@) == 0,
        out matches Some(t) ==> nat_of_be(a@) % pow2(t as nat) == 0 && (nat_of_be(a@) / pow2(
            t as nat,
        )) % 2 == 1,
{
    num_bigint::BigUint::from_bytes_be(a).trailing_zeros()
}

} // verus!
