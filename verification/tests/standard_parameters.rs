use eg::bignat::BigNat;
use eg::csprng::Csprng;
use eg::errors::ParameterValidationError;
use eg::fixed_parameters::{FixedParameters, NumsNumber};
use eg::standard_parameters::{
    is_standard_modulus_value, make_standard_parameters_v1_54, make_standard_parameters_v2_0,
    standard_parameters, STANDARD_V1_54_G, STANDARD_V1_54_P, STANDARD_V1_54_Q, STANDARD_V1_54_R,
    STANDARD_V2_0_G, STANDARD_V2_0_P, STANDARD_V2_0_Q, STANDARD_V2_0_R,
};

/// Validate the standard parameters v1.54.
#[test]
fn standard_parameters_v1_54() {
    let mut csprng = Csprng::new(b"test::standard_parameters_v1_54");

    let standard_parameters_v1_54 = make_standard_parameters_v1_54();
    assert_eq!(standard_parameters_v1_54.opt_version, Some([1, 54]));
    assert!(standard_parameters_v1_54.validate(&mut csprng).is_ok());
}

/// Validate the standard parameters v2.0.
#[test]
fn standard_parameters_v2_0() {
    let mut csprng = Csprng::new(b"test::standard_parameters_v2_0");

    let standard_parameters_v2_0 = make_standard_parameters_v2_0();
    assert_eq!(standard_parameters_v2_0.opt_version, Some([2, 0]));
    assert!(standard_parameters_v2_0.validate(&mut csprng).is_ok());
}

/// Verify that the standard parameters reflect the latest version (currently v2.0).
#[test]
fn standard_parameters_pub_static() {
    // Latest standard parameters are v2.0.
    assert_eq!(&standard_parameters(), &make_standard_parameters_v2_0());
}

#[test]
fn standard_parameters_hold_the_published_numbers() {
    let v2 = make_standard_parameters_v2_0();
    assert_eq!(v2.p.to_be_bytes(), STANDARD_V2_0_P.to_vec());
    assert_eq!(v2.q.to_be_bytes(), STANDARD_V2_0_Q.to_vec());
    assert_eq!(v2.r.to_be_bytes(), STANDARD_V2_0_R.to_vec());
    assert_eq!(v2.g.to_be_bytes(), STANDARD_V2_0_G.to_vec());
    assert_eq!(v2.generation_parameters.p_middle_bits_source, NumsNumber::Ln2);
    let v1 = make_standard_parameters_v1_54();
    assert_eq!(v1.p.to_be_bytes(), STANDARD_V1_54_P.to_vec());
    assert_eq!(v1.q.to_be_bytes(), STANDARD_V1_54_Q.to_vec());
    assert_eq!(v1.r.to_be_bytes(), STANDARD_V1_54_R.to_vec());
    assert_eq!(v1.g.to_be_bytes(), STANDARD_V1_54_G.to_vec());
    assert_eq!(
        v1.generation_parameters.p_middle_bits_source,
        NumsNumber::EulerMascheroniConstant
    );
    for fp in [&v1, &v2] {
        assert_eq!(fp.generation_parameters.p_bits_total, 4096);
        assert_eq!(fp.generation_parameters.q_bits_total, 256);
        assert_eq!(fp.generation_parameters.p_bits_msb_fixed_1, 256);
        assert_eq!(fp.generation_parameters.p_bits_lsb_fixed_1, 256);
    }
    // the first and the last digits, as they are published
    assert_eq!(&v2.p.to_hex()[..24], b"FFFFFFFFFFFFFFFFFFFFFFFF");
    assert_eq!(&v2.p.to_hex()[64..80], b"B17217F7D1CF79AB");
    assert_eq!(&v1.p.to_hex()[64..80], b"93C467E37DB0C7A4");
    assert_eq!(&v2.g.to_hex()[..16], b"36036FED214F3B50");
    assert_eq!(&v1.g.to_hex()[1008..], b"736EE018BBADB987");
    assert_eq!(&v2.r.to_hex()[..4], b"0100");
    assert_eq!(&v2.q.to_hex()[56..], b"FFFFFF43");
}

#[test]
fn standard_parameter_sets_differ_in_p_and_share_the_bit_lengths() {
    let v1 = make_standard_parameters_v1_54();
    let v2 = make_standard_parameters_v2_0();
    assert!(!v1.p.eq_value(&v2.p));
    assert_ne!(v1.p, v2.p);
    assert_eq!(v1.q.bits(), 256);
    assert_eq!(v2.q.bits(), 256);
    assert_eq!(v1.p.bits(), 4096);
    assert_eq!(v2.p.bits(), 4096);
    assert_eq!(v1.l_p_bytes(), 512);
    assert_eq!(v2.l_p_bytes(), 512);
    assert!(is_standard_modulus_value(&v1.p));
    assert!(is_standard_modulus_value(&v2.p));
    assert!(!is_standard_modulus_value(&v2.q));
    assert!(!is_standard_modulus_value(&v2.p.add(&BigNat::from_u64(2))));
}

fn flip_bit(v: &BigNat, bit: usize, len: usize) -> BigNat {
    let mut bytes = v.to_be_bytes_padded(len);
    let at = len - 1 - bit / 8;
    bytes[at] ^= 1 << (bit % 8);
    BigNat::from_be_bytes(&bytes)
}

fn with_p(fp: &FixedParameters, p: BigNat) -> FixedParameters {
    let mut changed = fp.clone();
    changed.p = p;
    changed
}

#[test]
fn flipped_bit_of_p_fails_validation() {
    let mut csprng = Csprng::new(b"flip p");
    let fp = make_standard_parameters_v2_0();
    // with the bits 6 and 14 flipped, p has no small factor
    for bit in [0usize, 1, 6, 14, 2048, 4095] {
        let changed = with_p(&fp, flip_bit(&fp.p, bit, 512));
        assert_eq!(
            changed.validate(&mut csprng),
            Err(ParameterValidationError::ModulusNotPrime),
            "bit {}",
            bit
        );
    }
}

#[test]
fn flipped_bit_of_p_fails_validation_v1_54() {
    let mut csprng = Csprng::new(b"flip p");
    let fp = make_standard_parameters_v1_54();
    for bit in [0usize, 3, 77, 1000, 4094] {
        let changed = with_p(&fp, flip_bit(&fp.p, bit, 512));
        assert!(changed.validate(&mut csprng).is_err(), "bit {}", bit);
    }
}

#[test]
fn flipped_bit_of_q_fails_validation() {
    let mut csprng = Csprng::new(b"flip q");
    for fp in [make_standard_parameters_v1_54(), make_standard_parameters_v2_0()] {
        for bit in (0..256).step_by(5) {
            let mut changed = fp.clone();
            changed.q = flip_bit(&fp.q, bit, 32);
            assert!(changed.validate(&mut csprng).is_err(), "bit {}", bit);
        }
    }
}

#[test]
fn flipped_bit_of_g_fails_validation() {
    let mut csprng = Csprng::new(b"flip g");
    let fp = make_standard_parameters_v2_0();
    for bit in (0..4096).step_by(97) {
        let mut changed = fp.clone();
        changed.g = flip_bit(&fp.g, bit, 512);
        assert_eq!(
            changed.validate(&mut csprng),
            Err(ParameterValidationError::GeneratorWrongOrder),
            "bit {}",
            bit
        );
    }
}

#[test]
fn flipped_bit_of_g_fails_validation_v1_54() {
    let mut csprng = Csprng::new(b"flip g");
    let fp = make_standard_parameters_v1_54();
    for bit in (0..4096).step_by(101) {
        let mut changed = fp.clone();
        changed.g = flip_bit(&fp.g, bit, 512);
        assert!(changed.validate(&mut csprng).is_err(), "bit {}", bit);
    }
}

#[test]
fn changed_r_fails_validation() {
    let mut csprng = Csprng::new(b"change r");
    let fp = make_standard_parameters_v2_0();
    let mut changed = fp.clone();
    changed.r = fp.r.add(&BigNat::one());
    assert_eq!(changed.validate(&mut csprng), Err(ParameterValidationError::GroupRelation));
}

#[test]
fn standard_q_passes_the_primality_test() {
    let mut csprng = Csprng::new(b"q");
    assert!(eg::primes::is_prime(&make_standard_parameters_v2_0().q, &mut csprng));
}
