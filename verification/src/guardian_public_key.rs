//! The public key of one guardian.

use vstd::prelude::*;
use crate::bignat::BigNat;
use crate::election_parameters::ElectionParameters;
use crate::errors::{KeyIndexError, KeyValidationError};

verus! {

/// The position of the first element of `elements`, at or after `from`, that is not a
/// member of the subgroup; the length of `elements` if there is none.
pub open spec fn first_non_member(
    election_parameters: ElectionParameters,
    elements: Seq<BigNat>,
    from: int,
) -> int
    decreases elements.len() - from,
{
    if from < 0 || from >= elements.len() {
        elements.len() as int
    } else if !election_parameters.fixed_parameters.in_subgroup(elements[from]@) {
        from
    } else {
        first_non_member(election_parameters, elements, from + 1)
    }
}

/// What the validation of a guardian's group elements against the election parameters
/// yields for guardian number `i`: checked in turn are the range of `i`, that there is
/// an element at all, and the membership of every element in the subgroup.
pub open spec fn key_validation_result(
    election_parameters: ElectionParameters,
    i: u16,
    elements: Seq<BigNat>,
) -> Result<(), KeyValidationError> {
    let vp = election_parameters.varying_parameters;
    if !vp.valid_guardian_i(i as int) {
        Err(KeyValidationError::Index(KeyIndexError::OutOfRange { i, n: vp.n }))
    } else if elements.len() == 0 {
        Err(KeyValidationError::NoElement)
    } else if first_non_member(election_parameters, elements, 0) < elements.len() {
        Err(
            KeyValidationError::NotInSubgroup {
                position: first_non_member(election_parameters, elements, 0) as usize,
            },
        )
    } else {
        Ok(())
    }
}

/// Validates the group elements of guardian number `i`.
pub fn validate_key_elements(
    election_parameters: &ElectionParameters,
    i: u16,
    elements: &Vec<BigNat>,
) -> (res: Result<(), KeyValidationError>)
    ensures
        res == key_validation_result(*election_parameters, i, elements@),
{
    let vp = &election_parameters.varying_parameters;
    if !vp.is_valid_guardian_i(i as usize) {
        return Err(KeyValidationError::Index(KeyIndexError::OutOfRange { i, n: vp.n }));
    }
    if elements.len() == 0 {
        return Err(KeyValidationError::NoElement);
    }
    let mut j: usize = 0;
    while j < elements.len()
        invariant
            j <= elements.len(),
            election_parameters.varying_parameters.valid_guardian_i(i as int),
            elements.len() != 0,
            first_non_member(*election_parameters, elements@, 0) == first_non_member(
                *election_parameters,
                elements@,
                j as int,
            ),
        decreases elements.len() - j,
    {
        if !election_parameters.fixed_parameters.is_subgroup_member(&elements[j]) {
            return Err(KeyValidationError::NotInSubgroup { position: j });
        }
        j = j + 1;
    }
    Ok(())
}

/// The public key of a guardian.
#[derive(Debug, PartialEq, Eq)]
pub struct GuardianPublicKey {
    /// Guardian number, `1 <= i <= n`.
    pub i: u16,
    /// Short name with which to refer to the guardian.
    pub opt_name: Option<String>,
    /// The commitments to the coefficients of the guardian's secret polynomial. The
    /// first of them is the guardian's contribution to the joint election public key.
    pub coefficient_commitments: Vec<BigNat>,
}

impl GuardianPublicKey {
    /// What `validate` returns.
    pub open spec fn validation_result(&self, election_parameters: ElectionParameters) -> Result<
        (),
        KeyValidationError,
    > {
        key_validation_result(election_parameters, self.i, self.coefficient_commitments@)
    }

    /// Whether the key conforms to the election parameters.
    pub open spec fn is_valid(&self, election_parameters: ElectionParameters) -> bool {
        self.validation_result(election_parameters) is Ok
    }

    /// The guardian's contribution to the joint election public key.
    pub open spec fn k0(&self) -> nat {
        self.coefficient_commitments@[0]@
    }

    /// Verifies that the key conforms to the election parameters: the guardian number
    /// is in range, there is a commitment, and every commitment is a member of the
    /// subgroup.
    pub fn validate(&self, election_parameters: &ElectionParameters) -> (res: Result<
        (),
        KeyValidationError,
    >)
        ensures
            res == self.validation_result(*election_parameters),
    {
        validate_key_elements(election_parameters, self.i, &self.coefficient_commitments)
    }

    /// The guardian's contribution to the joint election public key, the commitment to
    /// the constant coefficient.
    pub fn public_key_k0(&self) -> (res: &BigNat)
        requires
            self.coefficient_commitments@.len() > 0,
        ensures
            res@ == self.k0(),
    {
        &self.coefficient_commitments[0]
    }
}

/// A valid key has a guardian number in range and at least one commitment, and every
/// commitment is a member of the subgroup.
pub proof fn lemma_valid_key(election_parameters: ElectionParameters, key: GuardianPublicKey)
    requires
        key.is_valid(election_parameters),
    ensures
        1 <= key.i <= election_parameters.varying_parameters.n,
        key.coefficient_commitments@.len() > 0,
        forall|j: int|
            0 <= j < key.coefficient_commitments@.len()
                ==> election_parameters.fixed_parameters.in_subgroup(
                #[trigger] key.coefficient_commitments@[j]@,
            ),
{
    let elements = key.coefficient_commitments@;
    assert forall|j: int| 0 <= j < elements.len() implies election_parameters.fixed_parameters.in_subgroup(
        #[trigger] elements[j]@,
    ) by {
        lemma_first_non_member(election_parameters, elements, 0, j);
    }
}

/// Every element between `from` and the first non-member is a member.
pub proof fn lemma_first_non_member(
    election_parameters: ElectionParameters,
    elements: Seq<BigNat>,
    from: int,
    j: int,
)
    requires
        0 <= from <= j < first_non_member(election_parameters, elements, from),
    ensures
        j < elements.len(),
        election_parameters.fixed_parameters.in_subgroup(elements[j]@),
    decreases elements.len() - from,
{
    if from < elements.len() && from < j {
        lemma_first_non_member(election_parameters, elements, from + 1, j);
    }
}

} // verus!
