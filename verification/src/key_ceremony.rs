//! The decisions of the key ceremony that surround the reading and writing of keys:
//! which key is asked for, whether a key that was loaded is the one asked for, and the
//! making of a guardian's pair of keys.

use vstd::prelude::*;
use crate::csprng::{counter_after, drawn_below, Csprng};
use crate::election_parameters::ElectionParameters;
use crate::errors::{KeyIndexError, KeyLoadError, KeyValidationError};
use crate::guardian_public_key::GuardianPublicKey;
use crate::guardian_secret_key::{commitment_of, GuardianSecretKey};

verus! {

/// What the check of a loaded key yields, given the result of its validation: a key
/// that failed its validation is rejected for that reason, and a valid key is rejected
/// if a guardian number was asked for and the key has another.
pub open spec fn loaded_key_result(
    opt_i: Option<u16>,
    loaded_i: u16,
    validation: Result<(), KeyValidationError>,
) -> Result<(), KeyLoadError> {
    match validation {
        Err(error) => Err(KeyLoadError::Invalid(error)),
        Ok(()) => match opt_i {
            Some(i) => if i != loaded_i {
                Err(KeyLoadError::Index(KeyIndexError::Mismatch { requested: i, loaded: loaded_i }))
            } else {
                Ok(())
            },
            None => Ok(()),
        },
    }
}

/// Checks that a key can be looked for: a guardian number or a key file must be named.
pub fn check_key_request(opt_i: Option<u16>, path_given: bool) -> (res: Result<
    (),
    KeyLoadError,
>)
    ensures
        res == if opt_i is None && !path_given {
            Err::<(), KeyLoadError>(KeyLoadError::NoSource)
        } else {
            Ok::<(), KeyLoadError>(())
        },
{
    if opt_i.is_none() && !path_given {
        Err(KeyLoadError::NoSource)
    } else {
        Ok(())
    }
}

/// Decides on a loaded key, given the result of its validation.
pub fn check_loaded_key(
    opt_i: Option<u16>,
    loaded_i: u16,
    validation: Result<(), KeyValidationError>,
) -> (res: Result<(), KeyLoadError>)
    ensures
        res == loaded_key_result(opt_i, loaded_i, validation),
{
    match validation {
        Err(error) => Err(KeyLoadError::Invalid(error)),
        Ok(()) => match opt_i {
            Some(i) => {
                if i != loaded_i {
                    Err(
                        KeyLoadError::Index(
                            KeyIndexError::Mismatch { requested: i, loaded: loaded_i },
                        ),
                    )
                } else {
                    Ok(())
                }
            },
            None => Ok(()),
        },
    }
}

/// Checks a guardian public key that was loaded: it must pass its validation, and be
/// the key of guardian number `opt_i`, where one was asked for.
pub fn check_loaded_public_key(
    opt_i: Option<u16>,
    key: &GuardianPublicKey,
    election_parameters: &ElectionParameters,
) -> (res: Result<(), KeyLoadError>)
    ensures
        res == loaded_key_result(opt_i, key.i, key.validation_result(*election_parameters)),
{
    check_loaded_key(opt_i, key.i, key.validate(election_parameters))
}

/// Checks a guardian secret key that was loaded: it must pass its validation, and be
/// the key of guardian number `opt_i`, where one was asked for.
pub fn check_loaded_secret_key(
    opt_i: Option<u16>,
    key: &GuardianSecretKey,
    election_parameters: &ElectionParameters,
) -> (res: Result<(), KeyLoadError>)
    ensures
        res == loaded_key_result(opt_i, key.i, key.validation_result(*election_parameters)),
{
    check_loaded_key(opt_i, key.i, key.validate(election_parameters))
}

/// Makes the pair of keys of guardian number `i`: the secret key, generated with
/// `csprng`, and its public key. No key is made for a guardian number out of range,
/// and no number is drawn then.
pub fn generate_guardian_key_pair(
    csprng: &mut Csprng,
    election_parameters: &ElectionParameters,
    i: u16,
    opt_name: Option<String>,
) -> (res: Result<(GuardianSecretKey, GuardianPublicKey), KeyIndexError>)
    requires
        election_parameters.fixed_parameters.p@ > 0,
        election_parameters.fixed_parameters.q@ > 0,
    ensures
        res is Ok <==> election_parameters.varying_parameters.valid_guardian_i(i as int),
        res is Err ==> res == Err::<(GuardianSecretKey, GuardianPublicKey), KeyIndexError>(
            KeyIndexError::OutOfRange { i, n: election_parameters.varying_parameters.n },
        ) && final(csprng).counter() == old(csprng).counter(),
        res matches Ok((secret_key, public_key)) ==> {
            &&& secret_key.i == i
            &&& secret_key.opt_name == opt_name
            &&& secret_key.secret_coefficients@.len() == election_parameters.varying_parameters.k
            &&& secret_key.coefficient_commitments@.len()
                == election_parameters.varying_parameters.k
            &&& forall|j: int|
                0 <= j < election_parameters.varying_parameters.k ==> (
                #[trigger] secret_key.secret_coefficients@[j])@ == drawn_below(
                    old(csprng).seed(),
                    counter_after(old(csprng).counter(), j as nat),
                    election_parameters.fixed_parameters.q@,
                )
            &&& forall|j: int|
                0 <= j < election_parameters.varying_parameters.k ==> (
                #[trigger] secret_key.coefficient_commitments@[j])@ == commitment_of(
                    election_parameters.fixed_parameters,
                    secret_key.secret_coefficients@[j]@,
                )
            &&& secret_key.has_public_key(public_key)
            &&& final(csprng).counter() == counter_after(
                old(csprng).counter(),
                election_parameters.varying_parameters.k as nat,
            )
        },
        final(csprng).seed() == old(csprng).seed(),
{
    let varying_parameters = &election_parameters.varying_parameters;
    if !varying_parameters.is_valid_guardian_i(i as usize) {
        return Err(KeyIndexError::OutOfRange { i, n: varying_parameters.n });
    }
    let secret_key = GuardianSecretKey::generate(csprng, election_parameters, i, opt_name);
    let public_key = secret_key.make_public_key();
    Ok((secret_key, public_key))
}

} // verus!
