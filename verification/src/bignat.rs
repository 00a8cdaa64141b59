//! Arbitrary-precision natural numbers.
//!
//! A `BigNat` holds its value as a minimal big-endian byte string, so that two values are
//! equal exactly when their bytes are. The arithmetic itself is `num_bigint`'s.

use vstd::prelude::*;
use vstd::arithmetic::power::pow;
use vstd::arithmetic::power2::pow2;
use vstd::slice::slice_to_vec;
use crate::big_endian::{
    be_bytes_fixed, bit_length, byte_length, is_minimal_be, lemma_be_bytes_fixed_of_value,
    lemma_bit_length, lemma_minimal_be_length, lemma_minimal_be_unique, lemma_nat_of_be_concat,
    lemma_nat_of_be_lower_bound, lemma_nat_of_be_single, lemma_nat_of_be_skip_zeros,
    lemma_nat_of_be_zeros, lemma_pow256_adds, lemma_two_adicity, nat_of_be, pow256,
    two_adicity,
};
use crate::biguint_ops::{
    be_add, be_bits, be_lt, be_modpow, be_mul, be_rem, be_shr, be_sub, be_trailing_zeros,
};
use crate::hex_text::{canonical_hex, decode_hex, encode_hex, hex_value, is_hex_text};

verus! {

/// A natural number of any size.
#[derive(Debug, PartialEq, Eq)]
pub struct BigNat {
    be: Vec<u8>,
}

impl View for BigNat {
    type V = nat;

    /// The number itself.
    closed spec fn view(&self) -> nat {
        nat_of_be(self.be@)
    }
}

impl Clone for BigNat {
    fn clone(&self) -> (res: Self)
        ensures
            res@ == self@,
    {
        proof {
            use_type_invariant(self);
        }
        let be = slice_to_vec(self.be.as_slice());
        BigNat { be }
    }
}

impl BigNat {
    #[verifier::type_invariant]
    spec fn well_formed(self) -> bool {
        is_minimal_be(self.be@)
    }

    /// Drops the leading zero bytes of `bytes`.
    fn from_vec(bytes: Vec<u8>) -> (res: BigNat)
        ensures
            res@ == nat_of_be(bytes@),
    {
        let mut k: usize = 0;
        while k < bytes.len() && bytes[k] == 0
            invariant
                k <= bytes.len(),
                forall|i: int| 0 <= i < k ==> bytes@[i] == 0,
            decreases bytes.len() - k,
        {
            k = k + 1;
        }
        let mut be: Vec<u8> = Vec::new();
        let mut j: usize = k;
        while j < bytes.len()
            invariant
                k <= j <= bytes.len(),
                be@ == bytes@.subrange(k as int, j as int),
            decreases bytes.len() - j,
        {
            be.push(bytes[j]);
            j = j + 1;
        }
        proof {
            assert(be@ =~= bytes@.skip(k as int));
            lemma_nat_of_be_skip_zeros(bytes@, k as int);
        }
        BigNat { be }
    }

    /// The number that `bytes` denotes, most significant byte first.
    pub fn from_be_bytes(bytes: &[u8]) -> (res: BigNat)
        ensures
            res@ == nat_of_be(bytes@),
    {
        BigNat::from_vec(slice_to_vec(bytes))
    }

    /// The bytes of the number, most significant first and without leading zero bytes;
    /// zero has no bytes.
    pub fn to_be_bytes(&self) -> (res: Vec<u8>)
        ensures
            res@ == be_bytes_fixed(self@, byte_length(self@)),
            is_minimal_be(res@),
            nat_of_be(res@) == self@,
    {
        proof {
            use_type_invariant(self);
            lemma_minimal_be_length(self.be@);
            lemma_be_bytes_fixed_of_value(self.be@);
        }
        slice_to_vec(self.be.as_slice())
    }

    /// The number of bytes of the minimal big-endian form.
    pub fn byte_len(&self) -> (res: usize)
        ensures
            res == byte_length(self@),
    {
        proof {
            use_type_invariant(self);
            lemma_minimal_be_length(self.be@);
        }
        self.be.len()
    }

    /// The bytes of the number, most significant first, padded on the left with zero
    /// bytes to `len` bytes. A number that needs more than `len` bytes keeps them all.
    pub fn to_be_bytes_padded(&self, len: usize) -> (res: Vec<u8>)
        ensures
            nat_of_be(res@) == self@,
            byte_length(self@) <= len ==> res@ == be_bytes_fixed(self@, len as nat),
            byte_length(self@) > len ==> res@ == be_bytes_fixed(self@, byte_length(self@)),
            res@.len() == if byte_length(self@) <= len {
                len as nat
            } else {
                byte_length(self@)
            },
    {
        proof {
            use_type_invariant(self);
            lemma_minimal_be_length(self.be@);
            lemma_be_bytes_fixed_of_value(self.be@);
        }
        if self.be.len() >= len {
            return slice_to_vec(self.be.as_slice());
        }
        let pad: usize = len - self.be.len();
        let mut res: Vec<u8> = Vec::new();
        let mut i: usize = 0;
        while i < pad
            invariant
                i <= pad,
                res@.len() == i,
                forall|j: int| 0 <= j < i ==> res@[j] == 0,
            decreases pad - i,
        {
            res.push(0u8);
            i = i + 1;
        }
        let ghost zeros = res@;
        let mut j: usize = 0;
        while j < self.be.len()
            invariant
                j <= self.be.len(),
                res@ == zeros + self.be@.subrange(0, j as int),
                pad + self.be.len() == len,
                zeros.len() == pad,
            decreases self.be.len() - j,
        {
            res.push(self.be[j]);
            j = j + 1;
        }
        proof {
            assert(self.be@.subrange(0, self.be@.len() as int) =~= self.be@);
            lemma_nat_of_be_concat(zeros, self.be@);
            lemma_nat_of_be_zeros(zeros);
            assert(0 * pow256(self.be@.len()) == 0);
            lemma_be_bytes_fixed_of_value(res@);
        }
        res
    }

    /// The canonical text of the number: the hexadecimal digits, in upper case, of its
    /// big-endian bytes; `00` for zero.
    pub fn to_hex(&self) -> (res: Vec<u8>)
        ensures
            res@ == canonical_hex(self@),
    {
        proof {
            use_type_invariant(self);
            lemma_minimal_be_length(self.be@);
            lemma_be_bytes_fixed_of_value(self.be@);
            if self.be@.len() > 0 {
                lemma_nat_of_be_lower_bound(self.be@);
                lemma_pow256_adds((self.be@.len() - 1) as nat, 0);
            }
        }
        if self.be.len() == 0 {
            let mut res: Vec<u8> = Vec::new();
            res.push(48u8);
            res.push(48u8);
            assert(res@ =~= seq![48u8, 48u8]);
            res
        } else {
            encode_hex(self.be.as_slice())
        }
    }

    /// The number that the hexadecimal digits `text` denote; `None` where `text` is
    /// empty or holds a character that is no hexadecimal digit.
    pub fn from_hex(text: &[u8]) -> (res: Option<BigNat>)
        ensures
            res is Some <==> is_hex_text(text@),
            res matches Some(v) ==> v@ == hex_value(text@),
    {
        match decode_hex(text) {
            Some(bytes) => Some(BigNat::from_vec(bytes)),
            None => None,
        }
    }

    /// Zero.
    pub fn zero() -> (res: BigNat)
        ensures
            res@ == 0,
    {
        BigNat { be: Vec::new() }
    }

    /// The number `v`.
    pub fn from_u64(v: u64) -> (res: BigNat)
        ensures
            res@ == v,
    {
        // least significant byte first
        let mut le: Vec<u8> = Vec::new();
        let mut rest: u64 = v;
        proof {
            assert(le@.reverse() =~= Seq::<u8>::empty());
            assert(pow256(0) == 1);
        }
        while rest > 0
            invariant
                v == rest * pow256(le@.len()) + nat_of_be(le@.reverse()),
            decreases rest,
        {
            let b: u8 = (rest % 256) as u8;
            proof {
                let old_le = le@;
                assert(old_le.push(b).reverse() =~= seq![b] + old_le.reverse());
                lemma_nat_of_be_concat(seq![b], old_le.reverse());
                lemma_nat_of_be_single(b);
                lemma_pow256_adds(old_le.len(), 1);
                assert(pow256(1) == 256) by {
                    reveal_with_fuel(pow256, 2);
                }
                let r = rest as nat;
                let p = pow256(old_le.len());
                assert(r * p == (r / 256) * (p * 256) + (r % 256) * p) by (nonlinear_arith)
                    requires
                        r == (r / 256) * 256 + r % 256,
                ;
            }
            le.push(b);
            rest = rest / 256;
        }
        assert(0 * pow256(le@.len()) == 0);
        let mut bytes: Vec<u8> = Vec::new();
        let mut k: usize = le.len();
        while k > 0
            invariant
                k <= le@.len(),
                bytes@ == le@.reverse().subrange(0, le@.len() - k),
            decreases k,
        {
            k = k - 1;
            bytes.push(le[k]);
        }
        proof {
            assert(bytes@ =~= le@.reverse());
        }
        BigNat::from_vec(bytes)
    }

    /// One.
    pub fn one() -> (res: BigNat)
        ensures
            res@ == 1,
    {
        BigNat::from_u64(1)
    }

    /// Whether the number is zero.
    pub fn is_zero(&self) -> (res: bool)
        ensures
            res == (self@ == 0),
    {
        proof {
            use_type_invariant(self);
            if self.be@.len() > 0 {
                lemma_nat_of_be_lower_bound(self.be@);
                lemma_pow256_adds((self.be@.len() - 1) as nat, 0);
            }
        }
        self.be.len() == 0
    }

    /// Whether the two numbers are equal.
    pub fn eq_value(&self, other: &BigNat) -> (res: bool)
        ensures
            res == (self@ == other@),
    {
        proof {
            use_type_invariant(self);
            use_type_invariant(other);
            if self@ == other@ {
                lemma_minimal_be_unique(self.be@, other.be@);
            }
        }
        if self.be.len() != other.be.len() {
            return false;
        }
        let mut i: usize = 0;
        while i < self.be.len()
            invariant
                i <= self.be.len(),
                self.be.len() == other.be.len(),
                self@ == other@ ==> self.be@ == other.be@,
                forall|j: int| 0 <= j < i ==> self.be@[j] == other.be@[j],
            decreases self.be.len() - i,
        {
            if self.be[i] != other.be[i] {
                return false;
            }
            i = i + 1;
        }
        assert(self.be@ =~= other.be@);
        true
    }

    /// Whether the number is less than `other`.
    pub fn lt(&self, other: &BigNat) -> (res: bool)
        ensures
            res == (self@ < other@),
    {
        be_lt(self.be.as_slice(), other.be.as_slice())
    }

    /// Whether the number is at most `other`.
    pub fn le(&self, other: &BigNat) -> (res: bool)
        ensures
            res == (self@ <= other@),
    {
        !be_lt(other.be.as_slice(), self.be.as_slice())
    }

    /// The sum.
    pub fn add(&self, other: &BigNat) -> (res: BigNat)
        ensures
            res@ == self@ + other@,
    {
        BigNat::from_vec(be_add(self.be.as_slice(), other.be.as_slice()))
    }

    /// The difference.
    pub fn sub(&self, other: &BigNat) -> (res: BigNat)
        requires
            other@ <= self@,
        ensures
            res@ == self@ - other@,
    {
        BigNat::from_vec(be_sub(self.be.as_slice(), other.be.as_slice()))
    }

    /// The product.
    pub fn mul(&self, other: &BigNat) -> (res: BigNat)
        ensures
            res@ == self@ * other@,
    {
        BigNat::from_vec(be_mul(self.be.as_slice(), other.be.as_slice()))
    }

    /// The remainder of the division by `modulus`.
    pub fn rem(&self, modulus: &BigNat) -> (res: BigNat)
        requires
            modulus@ != 0,
        ensures
            res@ == self@ % modulus@,
    {
        BigNat::from_vec(be_rem(self.be.as_slice(), modulus.be.as_slice()))
    }

    /// `self ^ exponent mod modulus`.
    pub fn modpow(&self, exponent: &BigNat, modulus: &BigNat) -> (res: BigNat)
        requires
            modulus@ != 0,
        ensures
            res@ == pow(self@ as int, exponent@) % (modulus@ as int),
    {
        BigNat::from_vec(
            be_modpow(self.be.as_slice(), exponent.be.as_slice(), modulus.be.as_slice()),
        )
    }

    /// The quotient of the division by `2^shift`.
    pub fn shr(&self, shift: u64) -> (res: BigNat)
        ensures
            res@ == self@ / pow2(shift as nat),
    {
        BigNat::from_vec(be_shr(self.be.as_slice(), shift))
    }

    /// The number of bits of the number: zero for zero, and otherwise the `b` with
    /// `2^(b-1) <= self < 2^b`.
    pub fn bits(&self) -> (res: u64)
        ensures
            res == bit_length(self@),
    {
        let res = be_bits(self.be.as_slice());
        proof {
            if self@ > 0 {
                lemma_bit_length(self@, res as nat);
            }
        }
        res
    }

    /// The number of trailing zero bits, which is how often 2 divides the number; `None`
    /// for zero.
    pub fn trailing_zeros(&self) -> (res: Option<u64>)
        ensures
            res is None <==> self@ == 0,
            res matches Some(t) ==> t == two_adicity(self@),
    {
        let res = be_trailing_zeros(self.be.as_slice());
        proof {
            if let Some(t) = res {
                lemma_two_adicity(self@, t as nat);
            }
        }
        res
    }
}

} // verus!
