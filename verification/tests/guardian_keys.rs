use eg::bignat::BigNat;
use eg::csprng::Csprng;
use eg::election_parameters::ElectionParameters;
use eg::errors::{KeyIndexError, KeyLoadError, KeyValidationError};
use eg::fixed_parameters::{FixedParameterGenerationParameters, FixedParameters, NumsNumber};
use eg::guardian_public_key::{validate_key_elements, GuardianPublicKey};
use eg::guardian_secret_key::GuardianSecretKey;
use eg::key_ceremony::{
    check_key_request, check_loaded_key, check_loaded_public_key, check_loaded_secret_key,
    generate_guardian_key_pair,
};
use eg::standard_parameters::make_standard_parameters_v2_0;
use eg::varying_parameters::VaryingParameters;

fn n(v: u64) -> BigNat {
    BigNat::from_u64(v)
}

fn numbers(vs: &[u64]) -> Vec<BigNat> {
    vs.iter().map(|v| n(*v)).collect()
}

/// The subgroup of order 11 of the residues mod 23, generated by 2.
fn toy_parameters(guardians: u16, quorum: u16) -> ElectionParameters {
    ElectionParameters {
        fixed_parameters: FixedParameters {
            opt_version: None,
            generation_parameters: FixedParameterGenerationParameters {
                q_bits_total: 4,
                p_bits_total: 5,
                p_bits_msb_fixed_1: 0,
                p_middle_bits_source: NumsNumber::Ln2,
                p_bits_lsb_fixed_1: 0,
            },
            p: n(23),
            q: n(11),
            r: n(2),
            g: n(2),
        },
        varying_parameters: VaryingParameters {
            n: guardians,
            k: quorum,
            date: "2023-05-02".to_string(),
            info: "toy".to_string(),
        },
    }
}

fn public_key(i: u16, commitments: &[u64]) -> GuardianPublicKey {
    GuardianPublicKey { i, opt_name: None, coefficient_commitments: numbers(commitments) }
}

#[test]
fn generate_draws_the_coefficients_and_commits_to_them() {
    let ep = toy_parameters(3, 2);
    let mut csprng = Csprng::new(b"guardian keys");
    let first = GuardianSecretKey::generate(&mut csprng, &ep, 1, Some("Ada".to_string()));
    assert_eq!(first.i, 1);
    assert_eq!(first.opt_name, Some("Ada".to_string()));
    assert_eq!(first.secret_coefficients, numbers(&[9, 6]));
    assert_eq!(first.coefficient_commitments, numbers(&[6, 18]));
    assert_eq!(first.secret_s(), &n(9));
    let second = GuardianSecretKey::generate(&mut csprng, &ep, 2, None);
    assert_eq!(second.secret_coefficients, numbers(&[3, 5]));
    assert_eq!(second.coefficient_commitments, numbers(&[8, 9]));
    let third = GuardianSecretKey::generate(&mut csprng, &ep, 3, None);
    assert_eq!(third.secret_coefficients, numbers(&[1, 3]));
    assert_eq!(third.coefficient_commitments, numbers(&[2, 8]));
}

#[test]
fn generate_with_quorum_zero_makes_an_empty_key() {
    let ep = toy_parameters(3, 0);
    let mut csprng = Csprng::new(b"guardian keys");
    let key = GuardianSecretKey::generate(&mut csprng, &ep, 1, None);
    assert!(key.secret_coefficients.is_empty());
    assert!(key.coefficient_commitments.is_empty());
    assert_eq!(key.validate(&ep), Err(KeyValidationError::NoElement));
    assert_eq!(key.make_public_key().validate(&ep), Err(KeyValidationError::NoElement));
}

#[test]
fn public_key_has_number_name_and_commitments_of_the_secret_key() {
    let ep = toy_parameters(3, 2);
    let mut csprng = Csprng::new(b"guardian keys");
    let secret = GuardianSecretKey::generate(&mut csprng, &ep, 2, Some("Bo".to_string()));
    let public = secret.make_public_key();
    assert_eq!(
        public,
        GuardianPublicKey {
            i: 2,
            opt_name: Some("Bo".to_string()),
            coefficient_commitments: numbers(&[6, 18]),
        }
    );
    assert_eq!(public.public_key_k0(), &n(6));
    assert_eq!(secret.validate(&ep), Ok(()));
    assert_eq!(public.validate(&ep), Ok(()));
}

#[test]
fn public_key_validation_reports_the_first_failure() {
    let ep = toy_parameters(3, 2);
    assert_eq!(public_key(1, &[6, 18]).validate(&ep), Ok(()));
    assert_eq!(public_key(3, &[1, 1]).validate(&ep), Ok(()));
    assert_eq!(
        public_key(0, &[6, 18]).validate(&ep),
        Err(KeyValidationError::Index(KeyIndexError::OutOfRange { i: 0, n: 3 }))
    );
    assert_eq!(
        public_key(4, &[5]).validate(&ep),
        Err(KeyValidationError::Index(KeyIndexError::OutOfRange { i: 4, n: 3 }))
    );
    // the number of commitments is free, but for none at all
    assert_eq!(public_key(1, &[6]).validate(&ep), Ok(()));
    assert_eq!(public_key(1, &[6, 18, 2]).validate(&ep), Ok(()));
    assert_eq!(public_key(1, &[]).validate(&ep), Err(KeyValidationError::NoElement));
    assert_eq!(
        public_key(1, &[6, 18, 2, 7]).validate(&ep),
        Err(KeyValidationError::NotInSubgroup { position: 3 })
    );
    // 5 is a residue mod 23 and no member of the subgroup; 23 is no residue
    assert_eq!(
        public_key(1, &[5, 7]).validate(&ep),
        Err(KeyValidationError::NotInSubgroup { position: 0 })
    );
    assert_eq!(
        public_key(1, &[6, 5]).validate(&ep),
        Err(KeyValidationError::NotInSubgroup { position: 1 })
    );
    assert_eq!(
        public_key(1, &[6, 23]).validate(&ep),
        Err(KeyValidationError::NotInSubgroup { position: 1 })
    );
    assert_eq!(
        public_key(1, &[0, 6]).validate(&ep),
        Err(KeyValidationError::NotInSubgroup { position: 0 })
    );
    assert_eq!(
        validate_key_elements(&ep, 2, &numbers(&[6, 22])),
        Err(KeyValidationError::NotInSubgroup { position: 1 })
    );
}

#[test]
fn secret_key_validation_reports_the_first_failure() {
    let ep = toy_parameters(3, 2);
    let key = |i: u16, coefficients: &[u64], commitments: &[u64]| GuardianSecretKey {
        i,
        opt_name: None,
        secret_coefficients: numbers(coefficients),
        coefficient_commitments: numbers(commitments),
    };
    assert_eq!(key(1, &[9, 6], &[6, 18]).validate(&ep), Ok(()));
    assert_eq!(key(3, &[0, 10], &[1, 12]).validate(&ep), Ok(()));
    assert_eq!(
        key(4, &[9, 6], &[6, 18]).validate(&ep),
        Err(KeyValidationError::Index(KeyIndexError::OutOfRange { i: 4, n: 3 }))
    );
    assert_eq!(key(1, &[9], &[6]).validate(&ep), Ok(()));
    assert_eq!(key(1, &[], &[]).validate(&ep), Err(KeyValidationError::NoElement));
    assert_eq!(key(1, &[], &[6]).validate(&ep), Err(KeyValidationError::NoElement));
    assert_eq!(
        key(1, &[9], &[6, 18]).validate(&ep),
        Err(KeyValidationError::CommitmentCount { coefficients: 1, commitments: 2 })
    );
    assert_eq!(
        key(1, &[9, 6], &[6]).validate(&ep),
        Err(KeyValidationError::CommitmentCount { coefficients: 2, commitments: 1 })
    );
    assert_eq!(
        key(1, &[9, 11], &[6, 18]).validate(&ep),
        Err(KeyValidationError::CoefficientOutOfRange { position: 1 })
    );
    assert_eq!(
        key(1, &[9, 6], &[6, 8]).validate(&ep),
        Err(KeyValidationError::CommitmentMismatch { position: 1 })
    );
    assert_eq!(
        key(1, &[20, 6], &[5, 8]).validate(&ep),
        Err(KeyValidationError::CoefficientOutOfRange { position: 0 })
    );
    let mut no_modulus = toy_parameters(3, 2);
    no_modulus.fixed_parameters.p = n(0);
    assert_eq!(
        key(1, &[9, 6], &[6, 18]).validate(&no_modulus),
        Err(KeyValidationError::NotInSubgroup { position: 0 })
    );
}

#[test]
fn key_pairs_for_standard_parameters_are_valid() {
    let ep = ElectionParameters {
        fixed_parameters: make_standard_parameters_v2_0(),
        varying_parameters: VaryingParameters {
            n: 5,
            k: 3,
            date: "2023-05-02".to_string(),
            info: "standard".to_string(),
        },
    };
    let mut csprng = Csprng::new(b"standard key pair");
    let (secret, public) =
        generate_guardian_key_pair(&mut csprng, &ep, 5, Some("Eve".to_string())).unwrap();
    assert_eq!(secret.i, 5);
    assert_eq!(secret.secret_coefficients.len(), 3);
    assert_eq!(public.coefficient_commitments, secret.coefficient_commitments);
    assert_eq!(public.opt_name, Some("Eve".to_string()));
    for a in &secret.secret_coefficients {
        assert!(a.lt(&ep.fixed_parameters.q));
    }
    assert_eq!(secret.validate(&ep), Ok(()));
    assert_eq!(public.validate(&ep), Ok(()));
    // the same seed gives the same key, another seed another key
    let again = GuardianSecretKey::generate(
        &mut Csprng::new(b"standard key pair"),
        &ep,
        5,
        Some("Eve".to_string()),
    );
    assert_eq!(again, secret);
    let other = GuardianSecretKey::generate(&mut Csprng::new(b"another seed"), &ep, 5, None);
    assert_ne!(other.secret_coefficients, secret.secret_coefficients);
    // a commitment with one bit changed is no member of the subgroup
    let mut bytes = public.coefficient_commitments[1].to_be_bytes_padded(512);
    bytes[300] ^= 4;
    let mut tampered = secret.make_public_key();
    tampered.coefficient_commitments[1] = BigNat::from_be_bytes(&bytes);
    assert_eq!(
        tampered.validate(&ep),
        Err(KeyValidationError::NotInSubgroup { position: 1 })
    );
}

#[test]
fn no_key_pair_for_a_guardian_number_out_of_range() {
    let ep = toy_parameters(3, 2);
    let mut csprng = Csprng::new(b"guardian keys");
    assert_eq!(
        generate_guardian_key_pair(&mut csprng, &ep, 0, None),
        Err(KeyIndexError::OutOfRange { i: 0, n: 3 })
    );
    assert_eq!(
        generate_guardian_key_pair(&mut csprng, &ep, 4, None),
        Err(KeyIndexError::OutOfRange { i: 4, n: 3 })
    );
    // nothing was drawn so far
    let (secret, public) = generate_guardian_key_pair(&mut csprng, &ep, 3, None).unwrap();
    assert_eq!(secret.secret_coefficients, numbers(&[9, 6]));
    assert_eq!(public, public_key(3, &[6, 18]));
}

#[test]
fn key_request_needs_a_number_or_a_file() {
    assert_eq!(check_key_request(None, false), Err(KeyLoadError::NoSource));
    assert_eq!(check_key_request(Some(1), false), Ok(()));
    assert_eq!(check_key_request(None, true), Ok(()));
    assert_eq!(check_key_request(Some(1), true), Ok(()));
}

#[test]
fn loaded_key_must_be_valid_and_the_one_asked_for() {
    let ep = toy_parameters(3, 2);
    let key = public_key(2, &[6, 18]);
    assert_eq!(check_loaded_public_key(None, &key, &ep), Ok(()));
    assert_eq!(check_loaded_public_key(Some(2), &key, &ep), Ok(()));
    assert_eq!(
        check_loaded_public_key(Some(3), &key, &ep),
        Err(KeyLoadError::Index(KeyIndexError::Mismatch { requested: 3, loaded: 2 }))
    );
    // the validation comes first
    let invalid = public_key(2, &[6, 5]);
    assert_eq!(
        check_loaded_public_key(Some(3), &invalid, &ep),
        Err(KeyLoadError::Invalid(KeyValidationError::NotInSubgroup { position: 1 }))
    );
    let secret = GuardianSecretKey {
        i: 1,
        opt_name: None,
        secret_coefficients: numbers(&[9, 6]),
        coefficient_commitments: numbers(&[6, 18]),
    };
    assert_eq!(check_loaded_secret_key(Some(1), &secret, &ep), Ok(()));
    assert_eq!(
        check_loaded_secret_key(Some(2), &secret, &ep),
        Err(KeyLoadError::Index(KeyIndexError::Mismatch { requested: 2, loaded: 1 }))
    );
    assert_eq!(
        check_loaded_key(Some(7), 7, Err(KeyValidationError::CommitmentMismatch { position: 0 })),
        Err(KeyLoadError::Invalid(KeyValidationError::CommitmentMismatch { position: 0 }))
    );
    assert_eq!(check_loaded_key(None, 7, Ok(())), Ok(()));
}
