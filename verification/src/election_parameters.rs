//! The parameters of one election: the fixed group parameters together with the
//! parameters that vary from election to election.

use vstd::prelude::*;
use crate::csprng::{counter_after, Csprng};
use crate::errors::ParameterValidationError;
use crate::fixed_parameters::FixedParameters;
use crate::number_theory::is_prime_number;
use crate::varying_parameters::VaryingParameters;

verus! {

/// The election parameters, the unit that is stored and validated as a whole.
#[derive(Debug)]
pub struct ElectionParameters {
    /// The fixed group parameters.
    pub fixed_parameters: FixedParameters,
    /// The parameters of this election.
    pub varying_parameters: VaryingParameters,
}

impl ElectionParameters {
    /// What `validate` yields with a generator of the given seed and counter: the fixed
    /// parameters are validated first, then the varying parameters.
    pub open spec fn validation_outcome(&self, seed: Seq<u8>, counter: u64) -> Result<
        (),
        ParameterValidationError,
    > {
        if self.fixed_parameters.validation_outcome(seed, counter) is Err {
            self.fixed_parameters.validation_outcome(seed, counter)
        } else {
            self.varying_parameters.validation_result()
        }
    }

    /// Verifies that the election parameters are what they must be: the fixed parameters
    /// are validated first, with `csprng` for the primality tests, then the varying
    /// parameters.
    pub fn validate(&self, csprng: &mut Csprng) -> (res: Result<(), ParameterValidationError>)
        ensures
            res == self.validation_outcome(old(csprng).seed(), old(csprng).counter()),
            res is Ok ==> self.fixed_parameters.relations_hold()
                && self.varying_parameters.is_valid(),
            is_prime_number(self.fixed_parameters.p@) && is_prime_number(self.fixed_parameters.q@)
                ==> (res is Ok <==> self.fixed_parameters.relations_hold()
                && self.varying_parameters.is_valid()),
            final(csprng).seed() == old(csprng).seed(),
            final(csprng).counter() == counter_after(
                old(csprng).counter(),
                self.fixed_parameters.validation_draws(),
            ),
    {
        match self.fixed_parameters.validate(csprng) {
            Ok(()) => self.varying_parameters.validate(),
            Err(error) => Err(error),
        }
    }
}

} // verus!
