//! The joint election public key, and the protocol that combines the public keys of all
//! guardians into it.

use vstd::prelude::*;
use crate::big_endian::{be_bytes_fixed, byte_length, nat_of_be};
use crate::bignat::BigNat;
use crate::election_parameters::ElectionParameters;
use crate::artifact_text::{quoted_hex_line, quoted_hex_value, read_quoted_hex, write_quoted_hex};
use crate::errors::{AggregationError, CodecError, KeyValidationError};
use crate::fixed_parameters::FixedParameters;
use crate::guardian_public_key::GuardianPublicKey;
use crate::joint_key_laws::lemma_joint_key_in_subgroup;

verus! {

/// The joint election public key.
#[derive(Debug, PartialEq, Eq)]
pub struct JointElectionPublicKey(pub BigNat);

/// The position of the first key, at or after `from`, that fails its validation; the
/// number of keys if there is none.
pub open spec fn first_invalid_key(
    election_parameters: ElectionParameters,
    keys: Seq<GuardianPublicKey>,
    from: int,
) -> int
    decreases keys.len() - from,
{
    if from < 0 || from >= keys.len() {
        keys.len() as int
    } else if !keys[from].is_valid(election_parameters) {
        from
    } else {
        first_invalid_key(election_parameters, keys, from + 1)
    }
}

/// Whether the guardian number of the key at `position` is that of an earlier key.
pub open spec fn occurs_before(keys: Seq<GuardianPublicKey>, position: int) -> bool {
    exists|m: int| 0 <= m < position && (#[trigger] keys[m]).i == keys[position].i
}

/// The position of the first key, at or after `from`, whose guardian number is that of
/// an earlier key; the number of keys if there is none.
pub open spec fn first_duplicate(keys: Seq<GuardianPublicKey>, from: int) -> int
    decreases keys.len() - from,
{
    if from < 0 || from >= keys.len() {
        keys.len() as int
    } else if occurs_before(keys, from) {
        from
    } else {
        first_duplicate(keys, from + 1)
    }
}

/// Whether some key has the guardian number `i`.
pub open spec fn is_present(keys: Seq<GuardianPublicKey>, i: int) -> bool {
    exists|m: int| 0 <= m < keys.len() && (#[trigger] keys[m]).i == i
}

/// The guardian numbers from 1 to `upto` that no key has, in ascending order.
pub open spec fn missing_indices(keys: Seq<GuardianPublicKey>, upto: nat) -> Seq<u16>
    decreases upto,
{
    if upto == 0 {
        Seq::empty()
    } else if is_present(keys, upto as int) {
        missing_indices(keys, (upto - 1) as nat)
    } else {
        missing_indices(keys, (upto - 1) as nat).push(upto as u16)
    }
}

/// The product mod `p` of the contributions of the first `count` keys; 1 for no key.
pub open spec fn joint_product(keys: Seq<GuardianPublicKey>, p: nat, count: nat) -> nat
    decreases count,
{
    if count == 0 {
        1
    } else {
        (joint_product(keys, p, (count - 1) as nat) * keys[count - 1].k0()) % p
    }
}

/// The outcome of the aggregation, as a mathematical value.
pub enum AggregationOutcome {
    /// Every guardian is represented exactly once by a valid key: the joint key.
    JointKey { value: nat },
    /// The first key that failed its validation, and why.
    InvalidKey { position: int, error: KeyValidationError },
    /// The guardian number of the first key that repeats an earlier one.
    DuplicateIndex { i: u16 },
    /// All guardian numbers that are not represented, in ascending order.
    MissingIndices { missing: Seq<u16> },
}

/// What the aggregation of `keys` yields. The keys are validated one by one, and the
/// first failure is reported. Then every guardian number must occur at most once, and
/// then every number from 1 to `n` must occur. Only then are the contributions combined.
pub open spec fn aggregation_outcome(
    election_parameters: ElectionParameters,
    keys: Seq<GuardianPublicKey>,
) -> AggregationOutcome {
    let invalid = first_invalid_key(election_parameters, keys, 0);
    let duplicate = first_duplicate(keys, 0);
    let missing = missing_indices(keys, election_parameters.varying_parameters.n as nat);
    if invalid < keys.len() {
        AggregationOutcome::InvalidKey {
            position: invalid,
            error: keys[invalid].validation_result(election_parameters)->Err_0,
        }
    } else if duplicate < keys.len() {
        AggregationOutcome::DuplicateIndex { i: keys[duplicate].i }
    } else if missing.len() > 0 {
        AggregationOutcome::MissingIndices { missing }
    } else {
        AggregationOutcome::JointKey {
            value: joint_product(keys, election_parameters.fixed_parameters.p@, keys.len()),
        }
    }
}

/// The outcome that a result of `compute` stands for.
pub open spec fn outcome_of(res: Result<JointElectionPublicKey, AggregationError>)
    -> AggregationOutcome {
    match res {
        Ok(key) => AggregationOutcome::JointKey { value: key.0@ },
        Err(AggregationError::InvalidKey { position, error }) => AggregationOutcome::InvalidKey {
            position: position as int,
            error,
        },
        Err(AggregationError::DuplicateIndex { i }) => AggregationOutcome::DuplicateIndex { i },
        Err(AggregationError::MissingIndices { missing }) => AggregationOutcome::MissingIndices {
            missing: missing@,
        },
    }
}

/// Every key between `from` and the first invalid key is valid.
pub proof fn lemma_first_invalid_key(
    election_parameters: ElectionParameters,
    keys: Seq<GuardianPublicKey>,
    from: int,
    j: int,
)
    requires
        0 <= from <= j < first_invalid_key(election_parameters, keys, from),
    ensures
        j < keys.len(),
        keys[j].is_valid(election_parameters),
    decreases keys.len() - from,
{
    if from < keys.len() && from < j {
        lemma_first_invalid_key(election_parameters, keys, from + 1, j);
    }
}

/// No key between `from` and the first duplicate repeats an earlier guardian number.
pub proof fn lemma_first_duplicate(keys: Seq<GuardianPublicKey>, from: int, j: int)
    requires
        0 <= from <= j < first_duplicate(keys, from),
    ensures
        j < keys.len(),
        !occurs_before(keys, j),
    decreases keys.len() - from,
{
    if from < keys.len() && from < j {
        lemma_first_duplicate(keys, from + 1, j);
    }
}

impl JointElectionPublicKey {
    /// Combines the public keys of the guardians into the joint election public key.
    ///
    /// Every key must pass its validation, and the keys must represent every guardian
    /// from 1 to `n` exactly once, in any order. The joint key then is the product mod
    /// `p` of the guardians' contributions. Nothing is combined otherwise.
    ///
    /// The joint key is a member of the subgroup of order `q`, as the contributions are,
    /// and is not validated here once more.
    pub fn compute(
        election_parameters: &ElectionParameters,
        guardian_public_keys: &[GuardianPublicKey],
    ) -> (res: Result<JointElectionPublicKey, AggregationError>)
        ensures
            outcome_of(res) == aggregation_outcome(*election_parameters, guardian_public_keys@),
            election_parameters.varying_parameters.n >= 1 ==> (res matches Ok(key)
                ==> key.is_valid(*election_parameters)),
    {
        let fixed_parameters = &election_parameters.fixed_parameters;
        let varying_parameters = &election_parameters.varying_parameters;
        let n: usize = varying_parameters.n as usize;
        let ghost keys = guardian_public_keys@;
        let count: usize = guardian_public_keys.len();

        // Validate every supplied guardian public key.
        let mut j: usize = 0;
        while j < count
            invariant
                j <= count,
                count == keys.len(),
                keys == guardian_public_keys@,
                first_invalid_key(*election_parameters, keys, 0) == first_invalid_key(
                    *election_parameters,
                    keys,
                    j as int,
                ),
            decreases count - j,
        {
            match guardian_public_keys[j].validate(election_parameters) {
                Ok(()) => {},
                Err(error) => {
                    return Err(AggregationError::InvalidKey { position: j, error });
                },
            }
            j = j + 1;
        }
        proof {
            assert forall|m: int| 0 <= m < keys.len() implies (#[trigger] keys[m]).is_valid(
                *election_parameters,
            ) by {
                lemma_first_invalid_key(*election_parameters, keys, 0, m);
            }
        }

        // Verify that no guardian is represented more than once.
        let mut seen: Vec<bool> = Vec::new();
        let mut x: usize = 0;
        while x < n
            invariant
                x <= n,
                seen@.len() == x,
                forall|y: int| 0 <= y < x ==> !seen@[y],
            decreases n - x,
        {
            seen.push(false);
            x = x + 1;
        }
        let mut j: usize = 0;
        while j < count
            invariant
                j <= count,
                count == keys.len(),
                keys == guardian_public_keys@,
                n == election_parameters.varying_parameters.n,
                seen@.len() == n,
                first_invalid_key(*election_parameters, keys, 0) == keys.len(),
                forall|m: int|
                    0 <= m < keys.len() ==> (#[trigger] keys[m]).is_valid(*election_parameters),
                first_duplicate(keys, 0) == first_duplicate(keys, j as int),
                forall|y: int|
                    0 <= y < n ==> (#[trigger] seen@[y] <==> exists|m: int|
                        0 <= m < j && (#[trigger] keys[m]).i == y + 1),
            decreases count - j,
        {
            let i: u16 = guardian_public_keys[j].i;
            assert(keys[j as int].is_valid(*election_parameters));
            // Convert from 1-based indexing to 0-based.
            let seen_ix: usize = (i - 1) as usize;
            if seen[seen_ix] {
                proof {
                    let m = choose|m: int| 0 <= m < j && (#[trigger] keys[m]).i == seen_ix + 1;
                    assert(keys[m].i == keys[j as int].i);
                    assert(occurs_before(keys, j as int));
                }
                return Err(AggregationError::DuplicateIndex { i });
            }
            proof {
                if occurs_before(keys, j as int) {
                    let m = choose|m: int|
                        0 <= m < j && (#[trigger] keys[m]).i == keys[j as int].i;
                    assert(keys[m].i == seen_ix + 1);
                    assert(seen@[seen_ix as int]);
                }
            }
            let ghost seen_before = seen@;
            seen.set(seen_ix, true);
            proof {
                assert forall|y: int| 0 <= y < n implies (#[trigger] seen@[y] <==> exists|m: int|
                    0 <= m < j + 1 && (#[trigger] keys[m]).i == y + 1) by {
                    if y == seen_ix {
                        assert(keys[j as int].i == y + 1);
                    } else {
                        assert(seen@[y] == seen_before[y]);
                        if seen_before[y] {
                            let m = choose|m: int| 0 <= m < j && (#[trigger] keys[m]).i == y + 1;
                            assert(0 <= m < j + 1 && keys[m].i == y + 1);
                        }
                        if exists|m: int| 0 <= m < j + 1 && (#[trigger] keys[m]).i == y + 1 {
                            let m = choose|m: int|
                                0 <= m < j + 1 && (#[trigger] keys[m]).i == y + 1;
                            assert(m != j);
                            assert(0 <= m < j && keys[m].i == y + 1);
                        }
                    }
                }
            }
            j = j + 1;
        }

        // Collect the guardians that are not represented.
        let mut missing: Vec<u16> = Vec::new();
        let mut x: usize = 0;
        while x < n
            invariant
                x <= n,
                n == election_parameters.varying_parameters.n,
                seen@.len() == n,
                count == keys.len(),
                forall|y: int|
                    0 <= y < n ==> (#[trigger] seen@[y] <==> exists|m: int|
                        0 <= m < count && (#[trigger] keys[m]).i == y + 1),
                missing@ == missing_indices(keys, x as nat),
            decreases n - x,
        {
            proof {
                assert(seen@[x as int] <==> is_present(keys, x + 1));
            }
            if !seen[x] {
                missing.push((x + 1) as u16);
            }
            x = x + 1;
        }
        if missing.len() > 0 {
            return Err(AggregationError::MissingIndices { missing });
        }

        // Combine the contributions of the guardians.
        let mut acc = BigNat::one();
        let mut j: usize = 0;
        while j < count
            invariant
                j <= count,
                count == keys.len(),
                keys == guardian_public_keys@,
                fixed_parameters == &election_parameters.fixed_parameters,
                forall|m: int|
                    0 <= m < keys.len() ==> (#[trigger] keys[m]).is_valid(*election_parameters),
                acc@ == joint_product(keys, fixed_parameters.p@, j as nat),
            decreases count - j,
        {
            let key = &guardian_public_keys[j];
            proof {
                assert(keys[j as int].is_valid(*election_parameters));
                crate::guardian_public_key::lemma_valid_key(*election_parameters, keys[j as int]);
            }
            let product = acc.mul(key.public_key_k0());
            acc = product.rem(&fixed_parameters.p);
            j = j + 1;
        }
        proof {
            if election_parameters.varying_parameters.n >= 1 {
                lemma_joint_key_in_subgroup(*election_parameters, keys);
            }
        }
        Ok(JointElectionPublicKey(acc))
    }

    /// Whether the value is a member of the subgroup of order `q`.
    pub open spec fn is_valid(&self, election_parameters: ElectionParameters) -> bool {
        election_parameters.fixed_parameters.in_subgroup(self.0@)
    }

    /// Verifies that the `JointElectionPublicKey` conforms to the election parameters:
    /// its value must be a member of the subgroup of order `q`.
    pub fn validate(&self, election_parameters: &ElectionParameters) -> (res: Result<
        (),
        KeyValidationError,
    >)
        ensures
            res is Ok <==> self.is_valid(*election_parameters),
            res is Err ==> res == Err::<(), KeyValidationError>(
                KeyValidationError::NotInSubgroup { position: 0 },
            ),
    {
        if election_parameters.fixed_parameters.is_subgroup_member(&self.0) {
            Ok(())
        } else {
            Err(KeyValidationError::NotInSubgroup { position: 0 })
        }
    }

    /// What the reading of `text` yields: the text must be that of a number, and the
    /// number must be a member of the subgroup of order `q`.
    pub open spec fn reading_result(text: Seq<u8>, election_parameters: ElectionParameters)
        -> Result<nat, CodecError> {
        match quoted_hex_value(text) {
            None => Err(CodecError::Malformed),
            Some(v) => if election_parameters.fixed_parameters.in_subgroup(v) {
                Ok(v)
            } else {
                Err(
                    CodecError::Invalid {
                        error: KeyValidationError::NotInSubgroup { position: 0 },
                    },
                )
            },
        }
    }

    /// Reads a `JointElectionPublicKey` from the bytes of its text and validates it.
    /// No key is returned that has not passed the validation.
    pub fn from_stdioread_validated(
        stdioread: &[u8],
        election_parameters: &ElectionParameters,
    ) -> (res: Result<JointElectionPublicKey, CodecError>)
        ensures
            match res {
                Ok(key) => Self::reading_result(stdioread@, *election_parameters) == Ok::<
                    nat,
                    CodecError,
                >(key.0@),
                Err(error) => Self::reading_result(stdioread@, *election_parameters) == Err::<
                    nat,
                    CodecError,
                >(error),
            },
            res matches Ok(key) ==> key.is_valid(*election_parameters),
    {
        match read_quoted_hex(stdioread) {
            None => Err(CodecError::Malformed),
            Some(value) => {
                let key = JointElectionPublicKey(value);
                match key.validate(election_parameters) {
                    Ok(()) => Ok(key),
                    Err(error) => Err(CodecError::Invalid { error }),
                }
            },
        }
    }

    /// Writes the text of the `JointElectionPublicKey` to the end of `stdiowrite`: in
    /// double quotes the canonical hexadecimal digits of its value, then a newline.
    pub fn to_stdiowrite(&self, stdiowrite: &mut Vec<u8>)
        ensures
            final(stdiowrite)@ == old(stdiowrite)@ + quoted_hex_line(self.0@),
    {
        let mut text = write_quoted_hex(&self.0);
        stdiowrite.append(&mut text);
    }

    /// Returns the `JointElectionPublicKey` as a big-endian byte array of the correct
    /// length for `mod p`.
    pub fn to_be_bytes_len_p(&self, fixed_parameters: &FixedParameters) -> (res: Vec<u8>)
        ensures
            nat_of_be(res@) == self.0@,
            self.0@ < fixed_parameters.p@ ==> res@ == be_bytes_fixed(
                self.0@,
                byte_length(fixed_parameters.p@),
            ),
            res@ == be_bytes_fixed(
                self.0@,
                if byte_length(self.0@) <= byte_length(fixed_parameters.p@) {
                    byte_length(fixed_parameters.p@)
                } else {
                    byte_length(self.0@)
                },
            ),
    {
        fixed_parameters.biguint_to_be_bytes_len_p(&self.0)
    }
}

} // verus!
