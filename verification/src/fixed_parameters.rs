//! The fixed group parameters: a prime modulus `p`, the prime order `q` of a subgroup of
//! the multiplicative group mod `p`, the cofactor `r` and a generator `g` of the subgroup.

use vstd::prelude::*;
use vstd::arithmetic::power::pow;
use crate::big_endian::{be_bytes_fixed, bit_length, byte_length, nat_of_be};
use crate::bignat::BigNat;
use crate::csprng::{counter_after, lemma_counter_after_adds, Csprng};
use crate::errors::ParameterValidationError;
use crate::number_theory::is_prime_number;
use crate::primality_laws::lemma_validation_with_primes;
use crate::primes::{is_prime, is_probable_prime, primality_test_draws};
use crate::standard_parameters::{is_standard_modulus, is_standard_modulus_value};

verus! {

/// The publicly known constant whose binary expansion supplies the middle bits of `p`.
#[derive(Debug, Clone, Copy, PartialEq, Eq, Structural)]
pub enum NumsNumber {
    /// The Euler-Mascheroni constant.
    EulerMascheroniConstant,
    /// The natural logarithm of 2.
    Ln2,
}

/// How the parameters were generated.
#[derive(Debug, Clone, Copy, PartialEq, Eq, Structural)]
pub struct FixedParameterGenerationParameters {
    /// Number of bits of the subgroup order `q`.
    pub q_bits_total: usize,
    /// Number of bits of the modulus `p`.
    pub p_bits_total: usize,
    /// Number of leading bits of `p` set to 1.
    pub p_bits_msb_fixed_1: usize,
    /// Source of the middle bits of `p`.
    pub p_middle_bits_source: NumsNumber,
    /// Number of trailing bits of `p` set to 1.
    pub p_bits_lsb_fixed_1: usize,
}

/// The fixed parameters, shared by all elections that follow one version of the protocol.
#[derive(Debug, PartialEq, Eq)]
pub struct FixedParameters {
    /// The protocol version that the parameters conform to, if any.
    pub opt_version: Option<[usize; 2]>,
    /// Parameters used to generate the parameters.
    pub generation_parameters: FixedParameterGenerationParameters,
    /// Prime modulus.
    pub p: BigNat,
    /// Prime order of the subgroup.
    pub q: BigNat,
    /// Cofactor of `q` in `p - 1`.
    pub r: BigNat,
    /// Subgroup generator.
    pub g: BigNat,
}

impl Clone for FixedParameters {
    fn clone(&self) -> (res: Self)
        ensures
            res.opt_version == self.opt_version,
            res.generation_parameters == self.generation_parameters,
            res.p@ == self.p@,
            res.q@ == self.q@,
            res.r@ == self.r@,
            res.g@ == self.g@,
    {
        FixedParameters {
            opt_version: self.opt_version,
            generation_parameters: self.generation_parameters,
            p: self.p.clone(),
            q: self.q.clone(),
            r: self.r.clone(),
            g: self.g.clone(),
        }
    }
}

impl FixedParameters {
    /// Membership in the subgroup of order `q`: `0 <= x < p` and `x^q mod p = 1`.
    pub open spec fn in_subgroup(&self, x: nat) -> bool {
        x < self.p@ && pow(x as int, self.q@) % (self.p@ as int) == 1
    }

    /// What the validation yields, given the verdicts of the primality test on `p` and
    /// on `q`. The checks are made in this order, and the first that fails is reported:
    /// `p` is prime; `q` is prime; `p` and `q` have the declared numbers of bits;
    /// `2 <= g <= p - 2`; `g^q mod p = 1` and `g != 1`; `p = q * r + 1`.
    pub open spec fn validation_result(&self, p_is_prime: bool, q_is_prime: bool) -> Result<
        (),
        ParameterValidationError,
    > {
        if !p_is_prime {
            Err(ParameterValidationError::ModulusNotPrime)
        } else if !q_is_prime {
            Err(ParameterValidationError::OrderNotPrime)
        } else if bit_length(self.p@) != self.generation_parameters.p_bits_total {
            Err(ParameterValidationError::ModulusBitLength)
        } else if bit_length(self.q@) != self.generation_parameters.q_bits_total {
            Err(ParameterValidationError::OrderBitLength)
        } else if !(2 <= self.g@ && self.g@ + 2 <= self.p@) {
            Err(ParameterValidationError::GeneratorOutOfRange)
        } else if !(self.in_subgroup(self.g@) && self.g@ != 1) {
            Err(ParameterValidationError::GeneratorWrongOrder)
        } else if self.p@ != self.q@ * self.r@ + 1 {
            Err(ParameterValidationError::GroupRelation)
        } else {
            Ok(())
        }
    }

    /// The relations between the parameters that the validation checks, but for the
    /// primality of `p` and `q`.
    pub open spec fn relations_hold(&self) -> bool {
        &&& bit_length(self.p@) == self.generation_parameters.p_bits_total
        &&& bit_length(self.q@) == self.generation_parameters.q_bits_total
        &&& 2 <= self.g@ <= self.p@ - 2
        &&& pow(self.g@ as int, self.q@) % (self.p@ as int) == 1
        &&& self.p@ == self.q@ * self.r@ + 1
    }

    /// Validates the parameters, given the verdicts of the primality test on `p` and on
    /// `q`.
    pub fn validate_with_primality(&self, p_is_prime: bool, q_is_prime: bool) -> (res: Result<
        (),
        ParameterValidationError,
    >)
        ensures
            res == self.validation_result(p_is_prime, q_is_prime),
            res is Ok <==> p_is_prime && q_is_prime && self.relations_hold(),
    {
        if !p_is_prime {
            return Err(ParameterValidationError::ModulusNotPrime);
        }
        if !q_is_prime {
            return Err(ParameterValidationError::OrderNotPrime);
        }
        if self.p.bits() != self.generation_parameters.p_bits_total as u64 {
            return Err(ParameterValidationError::ModulusBitLength);
        }
        if self.q.bits() != self.generation_parameters.q_bits_total as u64 {
            return Err(ParameterValidationError::OrderBitLength);
        }
        let one = BigNat::one();
        let two = BigNat::from_u64(2);
        if !(two.le(&self.g) && self.g.add(&two).le(&self.p)) {
            return Err(ParameterValidationError::GeneratorOutOfRange);
        }
        if !self.is_subgroup_member(&self.g) || self.g.eq_value(&one) {
            return Err(ParameterValidationError::GeneratorWrongOrder);
        }
        if !self.q.mul(&self.r).add(&one).eq_value(&self.p) {
            return Err(ParameterValidationError::GroupRelation);
        }
        Ok(())
    }

    /// The verdict on the primality of `p`, with a generator of the given seed and
    /// counter: the moduli of the standard parameter sets are known primes, and every
    /// other number has to pass the primality test.
    pub open spec fn modulus_verdict(&self, seed: Seq<u8>, counter: u64) -> bool {
        is_standard_modulus(self.p@) || is_probable_prime(self.p@, seed, counter)
    }

    /// The number of draws that the verdict on the primality of `p` takes.
    pub open spec fn modulus_draws(&self) -> nat {
        if is_standard_modulus(self.p@) {
            0
        } else {
            primality_test_draws(self.p@)
        }
    }

    /// What `validate` yields with a generator of the given seed and counter: `p` is
    /// judged first and then `q`, each with the bases that the generator yields then.
    pub open spec fn validation_outcome(&self, seed: Seq<u8>, counter: u64) -> Result<
        (),
        ParameterValidationError,
    > {
        self.validation_result(
            self.modulus_verdict(seed, counter),
            is_probable_prime(self.q@, seed, counter_after(counter, self.modulus_draws())),
        )
    }

    /// The number of draws that `validate` makes.
    pub open spec fn validation_draws(&self) -> nat {
        self.modulus_draws() + primality_test_draws(self.q@)
    }

    /// Verifies that the parameters are what they must be: `p` and `q` are judged to be
    /// prime, and the relations between the parameters hold. The first check that fails
    /// is reported.
    ///
    /// The modulus of a standard parameter set is a known prime and is not tested again.
    /// Every other `p`, and every `q`, has to pass the primality test, with bases drawn
    /// from `csprng`.
    pub fn validate(&self, csprng: &mut Csprng) -> (res: Result<(), ParameterValidationError>)
        ensures
            res == self.validation_outcome(old(csprng).seed(), old(csprng).counter()),
            res is Ok ==> self.relations_hold(),
            is_prime_number(self.p@) && is_prime_number(self.q@) ==> res
                == self.validation_result(true, true),
            final(csprng).seed() == old(csprng).seed(),
            final(csprng).counter() == counter_after(
                old(csprng).counter(),
                self.validation_draws(),
            ),
    {
        proof {
            if is_prime_number(self.p@) && is_prime_number(self.q@) {
                lemma_validation_with_primes(*self, csprng.seed(), csprng.counter());
            }
            lemma_counter_after_adds(
                csprng.counter(),
                self.modulus_draws(),
                primality_test_draws(self.q@),
            );
            lemma_counter_after_adds(csprng.counter(), 0, 0);
        }
        let p_is_prime = is_standard_modulus_value(&self.p) || is_prime(&self.p, csprng);
        let q_is_prime = is_prime(&self.q, csprng);
        self.validate_with_primality(p_is_prime, q_is_prime)
    }

    /// Tells whether `n` is a residue mod `p`, `0 <= n < p`.
    pub fn is_valid_modp(&self, n: &BigNat) -> (res: bool)
        ensures
            res == (n@ < self.p@),
    {
        n.lt(&self.p)
    }

    /// Tells whether `n` is a residue mod `q`, `0 <= n < q`.
    pub fn is_valid_modq(&self, n: &BigNat) -> (res: bool)
        ensures
            res == (n@ < self.q@),
    {
        n.lt(&self.q)
    }

    /// Tells whether `x` is a member of the subgroup of order `q`.
    pub fn is_subgroup_member(&self, x: &BigNat) -> (res: bool)
        ensures
            res == self.in_subgroup(x@),
    {
        if !x.lt(&self.p) {
            return false;
        }
        let y = x.modpow(&self.q, &self.p);
        let one = BigNat::one();
        y.eq_value(&one)
    }

    /// The number of bytes of `p`.
    pub fn l_p_bytes(&self) -> (res: usize)
        ensures
            res == byte_length(self.p@),
    {
        self.p.byte_len()
    }

    /// The big-endian bytes of `u`, padded on the left with zero bytes to the byte length
    /// of `p`. Every residue mod `p` has exactly that many bytes.
    pub fn biguint_to_be_bytes_len_p(&self, u: &BigNat) -> (res: Vec<u8>)
        ensures
            nat_of_be(res@) == u@,
            u@ < self.p@ ==> res@ == be_bytes_fixed(u@, byte_length(self.p@)),
            res@ == be_bytes_fixed(
                u@,
                if byte_length(u@) <= byte_length(self.p@) {
                    byte_length(self.p@)
                } else {
                    byte_length(u@)
                },
            ),
    {
        proof {
            if u@ < self.p@ {
                crate::big_endian::lemma_byte_length_increases(u@, self.p@);
            }
        }
        let len = self.p.byte_len();
        u.to_be_bytes_padded(len)
    }
}

} // verus!
