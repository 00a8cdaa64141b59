//! The secret key of one guardian: the coefficients of the guardian's secret polynomial,
//! with the commitments to them.

use vstd::prelude::*;
use vstd::arithmetic::div_mod::{lemma_mod_bound, lemma_small_mod};
use vstd::arithmetic::power::{lemma1_pow, lemma_pow_mod_noop, lemma_pow_multiplies, pow};
use crate::bignat::BigNat;
use crate::csprng::{counter_after, drawn_below, lemma_counter_after_step, Csprng};
use crate::election_parameters::ElectionParameters;
use crate::errors::{KeyIndexError, KeyValidationError};
use crate::fixed_parameters::FixedParameters;
use crate::guardian_public_key::{first_non_member, GuardianPublicKey};

verus! {

/// The commitment to the secret coefficient `a`: `g^a mod p`.
pub open spec fn commitment_of(fixed_parameters: FixedParameters, a: nat) -> nat {
    (pow(fixed_parameters.g@ as int, a) % (fixed_parameters.p@ as int)) as nat
}

/// Why the pair of a secret coefficient and its commitment at `position` is rejected,
/// if it is.
pub open spec fn pair_error(
    fixed_parameters: FixedParameters,
    coefficients: Seq<BigNat>,
    commitments: Seq<BigNat>,
    position: int,
) -> Option<KeyValidationError> {
    if !(coefficients[position]@ < fixed_parameters.q@) {
        Some(KeyValidationError::CoefficientOutOfRange { position: position as usize })
    } else if commitments[position]@ != commitment_of(fixed_parameters, coefficients[position]@) {
        Some(KeyValidationError::CommitmentMismatch { position: position as usize })
    } else {
        None
    }
}

/// The first position, at or after `from`, of a pair that is rejected; the number of
/// coefficients if there is none.
pub open spec fn first_rejected_pair(
    fixed_parameters: FixedParameters,
    coefficients: Seq<BigNat>,
    commitments: Seq<BigNat>,
    from: int,
) -> int
    decreases coefficients.len() - from,
{
    if from < 0 || from >= coefficients.len() {
        coefficients.len() as int
    } else if pair_error(fixed_parameters, coefficients, commitments, from) is Some {
        from
    } else {
        first_rejected_pair(fixed_parameters, coefficients, commitments, from + 1)
    }
}

/// The secret key of a guardian.
#[derive(Debug, PartialEq, Eq)]
pub struct GuardianSecretKey {
    /// Guardian number, `1 <= i <= n`.
    pub i: u16,
    /// Short name with which to refer to the guardian.
    pub opt_name: Option<String>,
    /// The coefficients of the guardian's secret polynomial, `k` numbers below `q`.
    pub secret_coefficients: Vec<BigNat>,
    /// The commitments to the coefficients, `g` to the power of each.
    pub coefficient_commitments: Vec<BigNat>,
}

impl GuardianSecretKey {
    /// What `validate` returns. Checked in turn are the range of the guardian number,
    /// that there is a coefficient at all, that there are as many commitments as
    /// coefficients, and then pair by pair that the coefficient is below `q` and that
    /// the commitment is `g` to its power. With a modulus of zero there is no group, and
    /// the first commitment is reported as no member of it.
    pub open spec fn validation_result(&self, election_parameters: ElectionParameters) -> Result<
        (),
        KeyValidationError,
    > {
        let vp = election_parameters.varying_parameters;
        let fp = election_parameters.fixed_parameters;
        let coefficients = self.secret_coefficients@;
        let commitments = self.coefficient_commitments@;
        let rejected = first_rejected_pair(fp, coefficients, commitments, 0);
        if !vp.valid_guardian_i(self.i as int) {
            Err(KeyValidationError::Index(KeyIndexError::OutOfRange { i: self.i, n: vp.n }))
        } else if coefficients.len() == 0 {
            Err(KeyValidationError::NoElement)
        } else if commitments.len() != coefficients.len() {
            Err(
                KeyValidationError::CommitmentCount {
                    coefficients: coefficients.len() as usize,
                    commitments: commitments.len() as usize,
                },
            )
        } else if fp.p@ == 0 {
            Err(KeyValidationError::NotInSubgroup { position: 0 })
        } else if rejected < coefficients.len() {
            Err(pair_error(fp, coefficients, commitments, rejected)->Some_0)
        } else {
            Ok(())
        }
    }

    /// Whether the key conforms to the election parameters.
    pub open spec fn is_valid(&self, election_parameters: ElectionParameters) -> bool {
        self.validation_result(election_parameters) is Ok
    }

    /// Whether `public_key` is the public key of this secret key: it has the same
    /// guardian number and name, and the same commitments.
    pub open spec fn has_public_key(&self, public_key: GuardianPublicKey) -> bool {
        &&& public_key.i == self.i
        &&& public_key.opt_name == self.opt_name
        &&& public_key.coefficient_commitments@.len() == self.coefficient_commitments@.len()
        &&& forall|j: int|
            0 <= j < self.coefficient_commitments@.len()
                ==> (#[trigger] public_key.coefficient_commitments@[j])@
                == self.coefficient_commitments@[j]@
    }

    /// Generates the secret key of guardian number `i`: `k` secret coefficients below
    /// `q`, drawn from `csprng` one after the other, with their commitments.
    pub fn generate(
        csprng: &mut Csprng,
        election_parameters: &ElectionParameters,
        i: u16,
        opt_name: Option<String>,
    ) -> (res: GuardianSecretKey)
        requires
            election_parameters.fixed_parameters.p@ > 0,
            election_parameters.fixed_parameters.q@ > 0,
        ensures
            res.i == i,
            res.opt_name == opt_name,
            res.secret_coefficients@.len() == election_parameters.varying_parameters.k,
            res.coefficient_commitments@.len() == election_parameters.varying_parameters.k,
            forall|j: int|
                0 <= j < election_parameters.varying_parameters.k ==> (
                #[trigger] res.secret_coefficients@[j])@ == drawn_below(
                    old(csprng).seed(),
                    counter_after(old(csprng).counter(), j as nat),
                    election_parameters.fixed_parameters.q@,
                ),
            forall|j: int|
                0 <= j < election_parameters.varying_parameters.k ==> (
                #[trigger] res.coefficient_commitments@[j])@ == commitment_of(
                    election_parameters.fixed_parameters,
                    res.secret_coefficients@[j]@,
                ),
            final(csprng).seed() == old(csprng).seed(),
            final(csprng).counter() == counter_after(
                old(csprng).counter(),
                election_parameters.varying_parameters.k as nat,
            ),
    {
        let fixed_parameters = &election_parameters.fixed_parameters;
        let k: u16 = election_parameters.varying_parameters.k;
        let ghost seed = csprng.seed();
        let ghost start = csprng.counter();
        proof {
            lemma_counter_after_step(start, 0);
        }
        let mut secret_coefficients: Vec<BigNat> = Vec::new();
        let mut coefficient_commitments: Vec<BigNat> = Vec::new();
        let mut j: u16 = 0;
        while j < k
            invariant
                j <= k,
                fixed_parameters == &election_parameters.fixed_parameters,
                fixed_parameters.p@ > 0,
                fixed_parameters.q@ > 0,
                csprng.seed() == seed,
                csprng.counter() == counter_after(start, j as nat),
                secret_coefficients@.len() == j,
                coefficient_commitments@.len() == j,
                forall|m: int|
                    0 <= m < j ==> (#[trigger] secret_coefficients@[m])@ == drawn_below(
                        seed,
                        counter_after(start, m as nat),
                        fixed_parameters.q@,
                    ),
                forall|m: int|
                    0 <= m < j ==> (#[trigger] coefficient_commitments@[m])@ == commitment_of(
                        *fixed_parameters,
                        secret_coefficients@[m]@,
                    ),
            decreases k - j,
        {
            let coefficient = csprng.next_biguint_lt(&fixed_parameters.q);
            let commitment = fixed_parameters.g.modpow(&coefficient, &fixed_parameters.p);
            proof {
                lemma_counter_after_step(start, j as nat);
                lemma_mod_bound(
                    pow(fixed_parameters.g@ as int, coefficient@),
                    fixed_parameters.p@ as int,
                );
            }
            secret_coefficients.push(coefficient);
            coefficient_commitments.push(commitment);
            j = j + 1;
        }
        GuardianSecretKey { i, opt_name, secret_coefficients, coefficient_commitments }
    }

    /// Verifies that the key conforms to the election parameters.
    pub fn validate(&self, election_parameters: &ElectionParameters) -> (res: Result<
        (),
        KeyValidationError,
    >)
        ensures
            res == self.validation_result(*election_parameters),
    {
        let vp = &election_parameters.varying_parameters;
        let fp = &election_parameters.fixed_parameters;
        if !vp.is_valid_guardian_i(self.i as usize) {
            return Err(KeyValidationError::Index(KeyIndexError::OutOfRange { i: self.i, n: vp.n }));
        }
        let count = self.secret_coefficients.len();
        if count == 0 {
            return Err(KeyValidationError::NoElement);
        }
        if self.coefficient_commitments.len() != count {
            return Err(
                KeyValidationError::CommitmentCount {
                    coefficients: count,
                    commitments: self.coefficient_commitments.len(),
                },
            );
        }
        if fp.p.is_zero() {
            return Err(KeyValidationError::NotInSubgroup { position: 0 });
        }
        let mut j: usize = 0;
        while j < count
            invariant
                j <= count,
                count == self.secret_coefficients@.len(),
                count == self.coefficient_commitments@.len(),
                count != 0,
                election_parameters.varying_parameters.valid_guardian_i(self.i as int),
                fp == &election_parameters.fixed_parameters,
                fp.p@ != 0,
                first_rejected_pair(
                    *fp,
                    self.secret_coefficients@,
                    self.coefficient_commitments@,
                    0,
                ) == first_rejected_pair(
                    *fp,
                    self.secret_coefficients@,
                    self.coefficient_commitments@,
                    j as int,
                ),
            decreases count - j,
        {
            let coefficient = &self.secret_coefficients[j];
            if !coefficient.lt(&fp.q) {
                return Err(KeyValidationError::CoefficientOutOfRange { position: j });
            }
            let expected = fp.g.modpow(coefficient, &fp.p);
            proof {
                lemma_mod_bound(pow(fp.g@ as int, coefficient@), fp.p@ as int);
            }
            if !self.coefficient_commitments[j].eq_value(&expected) {
                return Err(KeyValidationError::CommitmentMismatch { position: j });
            }
            j = j + 1;
        }
        Ok(())
    }

    /// The secret of the guardian, the constant coefficient of the secret polynomial.
    pub fn secret_s(&self) -> (res: &BigNat)
        requires
            self.secret_coefficients@.len() > 0,
        ensures
            res@ == self.secret_coefficients@[0]@,
    {
        &self.secret_coefficients[0]
    }

    /// The public key that belongs to this secret key.
    pub fn make_public_key(&self) -> (res: GuardianPublicKey)
        ensures
            self.has_public_key(res),
    {
        let opt_name = match &self.opt_name {
            Some(name) => Some(name.clone()),
            None => None,
        };
        let mut coefficient_commitments: Vec<BigNat> = Vec::new();
        let mut j: usize = 0;
        while j < self.coefficient_commitments.len()
            invariant
                j <= self.coefficient_commitments@.len(),
                coefficient_commitments@.len() == j,
                forall|m: int|
                    0 <= m < j ==> (#[trigger] coefficient_commitments@[m])@
                        == self.coefficient_commitments@[m]@,
            decreases self.coefficient_commitments@.len() - j,
        {
            coefficient_commitments.push(self.coefficient_commitments[j].clone());
            j = j + 1;
        }
        GuardianPublicKey { i: self.i, opt_name, coefficient_commitments }
    }
}

/// A power of a member of the subgroup, reduced mod `p`, is a member of the subgroup.
pub proof fn lemma_power_in_subgroup(fixed_parameters: FixedParameters, x: nat, a: nat)
    requires
        fixed_parameters.in_subgroup(x),
    ensures
        fixed_parameters.in_subgroup((pow(x as int, a) % (fixed_parameters.p@ as int)) as nat),
{
    let p = fixed_parameters.p@ as int;
    let q = fixed_parameters.q@;
    let xi = x as int;
    lemma_mod_bound(pow(xi, q), p);
    lemma_mod_bound(pow(xi, a), p);
    lemma_small_mod(1, p as nat);
    // (x^a mod p)^q = (x^a)^q = (x^q)^a = (x^q mod p)^a = 1^a = 1, all mod p
    lemma_pow_mod_noop(pow(xi, a), q, p);
    lemma_pow_multiplies(xi, a, q);
    lemma_pow_multiplies(xi, q, a);
    assert(a * q == q * a) by (nonlinear_arith);
    lemma_pow_mod_noop(pow(xi, q), a, p);
    lemma1_pow(a);
}

/// Every pair between `from` and the first rejected pair is accepted.
pub proof fn lemma_first_rejected_pair(
    fixed_parameters: FixedParameters,
    coefficients: Seq<BigNat>,
    commitments: Seq<BigNat>,
    from: int,
    j: int,
)
    requires
        0 <= from <= j < first_rejected_pair(fixed_parameters, coefficients, commitments, from),
    ensures
        j < coefficients.len(),
        pair_error(fixed_parameters, coefficients, commitments, j) is None,
    decreases coefficients.len() - from,
{
    if from < coefficients.len() && from < j {
        lemma_first_rejected_pair(fixed_parameters, coefficients, commitments, from + 1, j);
    }
}

proof fn lemma_all_members(
    election_parameters: ElectionParameters,
    elements: Seq<BigNat>,
    from: int,
)
    requires
        0 <= from <= elements.len(),
        forall|j: int|
            0 <= j < elements.len() ==> election_parameters.fixed_parameters.in_subgroup(
                (#[trigger] elements[j])@,
            ),
    ensures
        first_non_member(election_parameters, elements, from) == elements.len(),
    decreases elements.len() - from,
{
    if from < elements.len() {
        assert(election_parameters.fixed_parameters.in_subgroup(elements[from]@));
        lemma_all_members(election_parameters, elements, from + 1);
    }
}

/// The public key of a valid secret key is valid, where the generator is a member of
/// the subgroup, as it is in valid parameters.
pub proof fn lemma_public_key_of_valid_secret_key(
    election_parameters: ElectionParameters,
    secret_key: GuardianSecretKey,
    public_key: GuardianPublicKey,
)
    requires
        secret_key.is_valid(election_parameters),
        secret_key.has_public_key(public_key),
        election_parameters.fixed_parameters.in_subgroup(election_parameters.fixed_parameters.g@),
    ensures
        public_key.is_valid(election_parameters),
{
    let fp = election_parameters.fixed_parameters;
    let coefficients = secret_key.secret_coefficients@;
    let commitments = secret_key.coefficient_commitments@;
    let elements = public_key.coefficient_commitments@;
    assert forall|j: int| 0 <= j < elements.len() implies fp.in_subgroup(
        (#[trigger] elements[j])@,
    ) by {
        lemma_first_rejected_pair(fp, coefficients, commitments, 0, j);
        lemma_power_in_subgroup(fp, fp.g@, coefficients[j]@);
    }
    lemma_all_members(election_parameters, elements, 0);
}

/// A key generated for a guardian number in range, with at least one coefficient, is
/// valid: a secret key whose coefficients are below `q` and whose commitments are `g` to
/// their powers passes the validation.
pub proof fn lemma_generated_key_is_valid(
    election_parameters: ElectionParameters,
    secret_key: GuardianSecretKey,
)
    requires
        election_parameters.fixed_parameters.p@ > 0,
        election_parameters.varying_parameters.valid_guardian_i(secret_key.i as int),
        election_parameters.varying_parameters.k >= 1,
        secret_key.secret_coefficients@.len() == election_parameters.varying_parameters.k,
        secret_key.coefficient_commitments@.len() == election_parameters.varying_parameters.k,
        forall|j: int|
            0 <= j < election_parameters.varying_parameters.k ==> (
            #[trigger] secret_key.secret_coefficients@[j])@
                < election_parameters.fixed_parameters.q@,
        forall|j: int|
            0 <= j < election_parameters.varying_parameters.k ==> (
            #[trigger] secret_key.coefficient_commitments@[j])@ == commitment_of(
                election_parameters.fixed_parameters,
                secret_key.secret_coefficients@[j]@,
            ),
    ensures
        secret_key.is_valid(election_parameters),
{
    lemma_no_rejected_pair(
        election_parameters.fixed_parameters,
        secret_key.secret_coefficients@,
        secret_key.coefficient_commitments@,
        0,
    );
}

proof fn lemma_no_rejected_pair(
    fixed_parameters: FixedParameters,
    coefficients: Seq<BigNat>,
    commitments: Seq<BigNat>,
    from: int,
)
    requires
        0 <= from <= coefficients.len(),
        forall|j: int|
            0 <= j < coefficients.len() ==> (#[trigger] coefficients[j])@ < fixed_parameters.q@,
        forall|j: int|
            0 <= j < coefficients.len() ==> (#[trigger] commitments[j])@ == commitment_of(
                fixed_parameters,
                coefficients[j]@,
            ),
    ensures
        first_rejected_pair(fixed_parameters, coefficients, commitments, from)
            == coefficients.len(),
    decreases coefficients.len() - from,
{
    if from < coefficients.len() {
        assert(coefficients[from]@ < fixed_parameters.q@);
        assert(commitments[from]@ == commitment_of(fixed_parameters, coefficients[from]@));
        lemma_no_rejected_pair(fixed_parameters, coefficients, commitments, from + 1);
    }
}

} // verus!
