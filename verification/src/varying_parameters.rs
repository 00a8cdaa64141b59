//! Parameters that vary from election to election.

use vstd::prelude::*;
use crate::errors::ParameterValidationError;

verus! {

/// The parameters for a specific election.
#[derive(Debug)]
pub struct VaryingParameters {
    /// Number of guardians.
    pub n: u16,
    /// Decryption quorum threshold value.
    pub k: u16,
    /// Date string.
    pub date: String,
    /// Jurisdictional information string.
    pub info: String,
}

impl VaryingParameters {
    /// `1 <= n` and `1 <= k <= n`.
    pub open spec fn is_valid(&self) -> bool {
        1 <= self.n && 1 <= self.k && self.k <= self.n
    }

    /// The first violated requirement, checked in the order `1 <= n`, `1 <= k`, `k <= n`.
    pub open spec fn validation_result(&self) -> Result<(), ParameterValidationError> {
        if self.n < 1 {
            Err(ParameterValidationError::GuardianCountZero)
        } else if self.k < 1 {
            Err(ParameterValidationError::QuorumZero)
        } else if self.k > self.n {
            Err(ParameterValidationError::QuorumExceedsGuardianCount)
        } else {
            Ok(())
        }
    }

    /// Whether `i` is a guardian index of this election, `1 <= i <= n`.
    pub open spec fn valid_guardian_i(&self, i: int) -> bool {
        1 <= i <= self.n
    }

    /// Verifies the `VaryingParameters` meet some basic validity requirements.
    pub fn validate(&self) -> (res: Result<(), ParameterValidationError>)
        ensures
            res == self.validation_result(),
            res.is_ok() <==> self.is_valid(),
    {
        if self.n < 1 {
            return Err(ParameterValidationError::GuardianCountZero);
        }
        if self.k < 1 {
            return Err(ParameterValidationError::QuorumZero);
        }
        if self.k > self.n {
            return Err(ParameterValidationError::QuorumExceedsGuardianCount);
        }
        Ok(())
    }

    /// Tells whether `i` is in the range `1 <= i <= n`.
    pub fn is_valid_guardian_i(&self, i: usize) -> (res: bool)
        ensures
            res == self.valid_guardian_i(i as int),
    {
        1 <= i && i <= self.n as usize
    }

    /// The guardian numbers in ascending order, `1 <= i <= n`.
    pub fn each_guardian_i(&self) -> (res: Vec<u16>)
        ensures
            res@.len() == self.n,
            forall|j: int| 0 <= j < self.n ==> #[trigger] res@[j] == j + 1,
    {
        let mut res: Vec<u16> = Vec::new();
        let mut i: u16 = 0;
        while i < self.n
            invariant
                i <= self.n,
                res@.len() == i,
                forall|j: int| 0 <= j < i ==> #[trigger] res@[j] == j + 1,
            decreases self.n - i,
        {
            i = i + 1;
            res.push(i);
        }
        res
    }
}

/// For every `n >= 1` and `1 <= k <= n` validation succeeds; it fails when `k`
/// exceeds `n`, and when `n` is zero.
pub proof fn lemma_varying_parameters_validation(vp: VaryingParameters)
    ensures
        (1 <= vp.n && 1 <= vp.k <= vp.n) ==> vp.validation_result() is Ok,
        vp.k > vp.n ==> vp.validation_result() is Err,
        vp.n == 0 ==> vp.validation_result() is Err,
{
}

} // verus!
