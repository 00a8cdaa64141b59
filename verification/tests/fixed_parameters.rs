use eg::bignat::BigNat;
use eg::csprng::Csprng;
use eg::election_parameters::ElectionParameters;
use eg::errors::ParameterValidationError;
use eg::fixed_parameters::{FixedParameterGenerationParameters, FixedParameters, NumsNumber};
use eg::varying_parameters::VaryingParameters;

fn n(v: u64) -> BigNat {
    BigNat::from_u64(v)
}

/// The subgroup of order 11 of the residues mod 23, generated by 2.
fn toy(p: u64, q: u64, r: u64, g: u64) -> FixedParameters {
    FixedParameters {
        opt_version: None,
        generation_parameters: FixedParameterGenerationParameters {
            q_bits_total: 4,
            p_bits_total: 5,
            p_bits_msb_fixed_1: 0,
            p_middle_bits_source: NumsNumber::Ln2,
            p_bits_lsb_fixed_1: 0,
        },
        p: n(p),
        q: n(q),
        r: n(r),
        g: n(g),
    }
}

fn validate(fp: &FixedParameters) -> Result<(), ParameterValidationError> {
    fp.validate(&mut Csprng::new(b"fixed parameters"))
}

#[test]
fn toy_parameters_are_valid() {
    assert_eq!(validate(&toy(23, 11, 2, 2)), Ok(()));
    // every member of the subgroup but 1 generates it
    for g in [4u64, 8, 16, 9, 18, 13, 3, 6, 12] {
        assert_eq!(validate(&toy(23, 11, 2, g)), Ok(()));
    }
}

#[test]
fn first_failing_check_is_reported() {
    // p = 21 is not prime, and q = 9 is not either
    assert_eq!(validate(&toy(21, 9, 2, 2)), Err(ParameterValidationError::ModulusNotPrime));
    // q = 9 is not prime
    assert_eq!(validate(&toy(23, 9, 2, 2)), Err(ParameterValidationError::OrderNotPrime));
    // p = 47 has 6 bits
    assert_eq!(validate(&toy(47, 11, 2, 2)), Err(ParameterValidationError::ModulusBitLength));
    // q = 5 has 3 bits
    assert_eq!(validate(&toy(23, 5, 2, 2)), Err(ParameterValidationError::OrderBitLength));
    // g must be from 2 to p - 2
    assert_eq!(validate(&toy(23, 11, 2, 0)), Err(ParameterValidationError::GeneratorOutOfRange));
    assert_eq!(validate(&toy(23, 11, 2, 1)), Err(ParameterValidationError::GeneratorOutOfRange));
    assert_eq!(validate(&toy(23, 11, 2, 22)), Err(ParameterValidationError::GeneratorOutOfRange));
    assert_eq!(validate(&toy(23, 11, 2, 23)), Err(ParameterValidationError::GeneratorOutOfRange));
    assert_eq!(validate(&toy(23, 11, 2, 1000)), Err(ParameterValidationError::GeneratorOutOfRange));
    // 5 has the order 22
    assert_eq!(validate(&toy(23, 11, 2, 5)), Err(ParameterValidationError::GeneratorWrongOrder));
    assert_eq!(validate(&toy(23, 11, 2, 21)), Err(ParameterValidationError::GeneratorWrongOrder));
    // 23 is neither 11 * 3 + 1 nor 11 * 0 + 1
    assert_eq!(validate(&toy(23, 11, 3, 2)), Err(ParameterValidationError::GroupRelation));
    assert_eq!(validate(&toy(23, 11, 0, 2)), Err(ParameterValidationError::GroupRelation));
}

#[test]
fn validation_with_given_verdicts() {
    let fp = toy(23, 11, 2, 2);
    assert_eq!(fp.validate_with_primality(true, true), Ok(()));
    assert_eq!(fp.validate_with_primality(false, true), Err(ParameterValidationError::ModulusNotPrime));
    assert_eq!(fp.validate_with_primality(true, false), Err(ParameterValidationError::OrderNotPrime));
    assert_eq!(fp.validate_with_primality(false, false), Err(ParameterValidationError::ModulusNotPrime));
    // the relations are checked whatever the numbers are
    assert_eq!(toy(21, 9, 2, 2).validate_with_primality(true, true), Err(ParameterValidationError::GeneratorWrongOrder));
    assert_eq!(toy(0, 0, 0, 0).validate_with_primality(true, true), Err(ParameterValidationError::ModulusBitLength));
}

#[test]
fn zero_and_one_are_rejected_without_panic() {
    assert_eq!(validate(&toy(0, 0, 0, 0)), Err(ParameterValidationError::ModulusNotPrime));
    assert_eq!(validate(&toy(1, 1, 0, 0)), Err(ParameterValidationError::ModulusNotPrime));
    assert_eq!(validate(&toy(2, 2, 0, 0)), Err(ParameterValidationError::ModulusBitLength));
}

#[test]
fn residues_and_members() {
    let fp = toy(23, 11, 2, 2);
    assert!(fp.is_valid_modp(&n(0)));
    assert!(fp.is_valid_modp(&n(22)));
    assert!(!fp.is_valid_modp(&n(23)));
    assert!(fp.is_valid_modq(&n(10)));
    assert!(!fp.is_valid_modq(&n(11)));
    let members = [1u64, 2, 4, 8, 16, 9, 18, 13, 3, 6, 12];
    for x in 0..30u64 {
        assert_eq!(fp.is_subgroup_member(&n(x)), members.contains(&x), "{}", x);
    }
    // no number is a member where the modulus is zero or one
    assert!(!toy(0, 11, 2, 2).is_subgroup_member(&n(0)));
    assert!(!toy(1, 11, 2, 2).is_subgroup_member(&n(0)));
}

#[test]
fn bytes_of_the_length_of_p() {
    let fp = toy(0x01_0000, 11, 2, 2);
    assert_eq!(fp.l_p_bytes(), 3);
    assert_eq!(fp.biguint_to_be_bytes_len_p(&n(0)), vec![0, 0, 0]);
    assert_eq!(fp.biguint_to_be_bytes_len_p(&n(0x0102)), vec![0, 1, 2]);
    assert_eq!(fp.biguint_to_be_bytes_len_p(&n(0xFFFF)), vec![0, 0xFF, 0xFF]);
    assert_eq!(fp.biguint_to_be_bytes_len_p(&n(0x0102_0304)), vec![1, 2, 3, 4]);
}

#[test]
fn clone_keeps_every_field() {
    let fp = toy(23, 11, 2, 2);
    assert_eq!(fp.clone(), fp);
}

#[test]
fn election_parameters_validate_fixed_then_varying() {
    let make = |fp: FixedParameters, n: u16, k: u16| ElectionParameters {
        fixed_parameters: fp,
        varying_parameters: VaryingParameters {
            n,
            k,
            date: String::new(),
            info: String::new(),
        },
    };
    let mut csprng = Csprng::new(b"election parameters");
    assert_eq!(make(toy(23, 11, 2, 2), 5, 3).validate(&mut csprng), Ok(()));
    assert_eq!(make(toy(23, 11, 2, 2), 0, 0).validate(&mut csprng), Err(ParameterValidationError::GuardianCountZero));
    assert_eq!(make(toy(23, 11, 2, 2), 3, 0).validate(&mut csprng), Err(ParameterValidationError::QuorumZero));
    assert_eq!(
        make(toy(23, 11, 2, 2), 3, 4).validate(&mut csprng),
        Err(ParameterValidationError::QuorumExceedsGuardianCount)
    );
    assert_eq!(make(toy(23, 11, 3, 2), 0, 0).validate(&mut csprng), Err(ParameterValidationError::GroupRelation));
    assert_eq!(make(toy(21, 11, 2, 2), 5, 3).validate(&mut csprng), Err(ParameterValidationError::ModulusNotPrime));
}
