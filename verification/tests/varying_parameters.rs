use eg::errors::ParameterValidationError;
use eg::varying_parameters::VaryingParameters;

fn varying(n: u16, k: u16) -> VaryingParameters {
    VaryingParameters { n, k, date: "2023-05-02".to_string(), info: "Imaginaria".to_string() }
}

#[test]
fn validate_accepts_every_quorum_up_to_n() {
    for n in 1..=50u16 {
        for k in 1..=n {
            assert_eq!(varying(n, k).validate(), Ok(()));
        }
    }
}

#[test]
fn validate_rejects_quorum_above_n() {
    for n in 1..=50u16 {
        assert_eq!(
            varying(n, n + 1).validate(),
            Err(ParameterValidationError::QuorumExceedsGuardianCount)
        );
    }
}

#[test]
fn validate_rejects_zero_guardians() {
    assert_eq!(varying(0, 0).validate(), Err(ParameterValidationError::GuardianCountZero));
    assert_eq!(varying(0, 1).validate(), Err(ParameterValidationError::GuardianCountZero));
}

#[test]
fn validate_rejects_zero_quorum() {
    assert_eq!(varying(5, 0).validate(), Err(ParameterValidationError::QuorumZero));
}

#[test]
fn guardian_numbers_are_one_based() {
    let vp = varying(3, 2);
    assert!(!vp.is_valid_guardian_i(0));
    assert!(vp.is_valid_guardian_i(1));
    assert!(vp.is_valid_guardian_i(3));
    assert!(!vp.is_valid_guardian_i(4));
    assert!(!vp.is_valid_guardian_i(usize::MAX));
    assert!(!varying(0, 0).is_valid_guardian_i(0));
}

#[test]
fn each_guardian_i_counts_from_one_to_n() {
    assert_eq!(varying(5, 3).each_guardian_i(), vec![1, 2, 3, 4, 5]);
    assert_eq!(varying(1, 1).each_guardian_i(), vec![1]);
    assert_eq!(varying(0, 0).each_guardian_i(), Vec::<u16>::new());
    let all = varying(u16::MAX, 1).each_guardian_i();
    assert_eq!(all.len(), 65535);
    assert_eq!(all[65534], 65535);
}
