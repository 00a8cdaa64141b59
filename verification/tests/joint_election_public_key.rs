use eg::bignat::BigNat;
use eg::csprng::Csprng;
use eg::election_parameters::ElectionParameters;
use eg::errors::{AggregationError, CodecError, KeyIndexError, KeyValidationError};
use eg::fixed_parameters::{FixedParameterGenerationParameters, FixedParameters, NumsNumber};
use eg::guardian_public_key::GuardianPublicKey;
use eg::guardian_secret_key::GuardianSecretKey;
use eg::joint_election_public_key::JointElectionPublicKey;
use eg::standard_parameters::make_standard_parameters_v2_0;
use eg::varying_parameters::VaryingParameters;

fn n(v: u64) -> BigNat {
    BigNat::from_u64(v)
}

/// The subgroup of order 11 of the residues mod 23, generated by 2.
fn toy_parameters(guardians: u16, quorum: u16) -> ElectionParameters {
    ElectionParameters {
        fixed_parameters: FixedParameters {
            opt_version: None,
            generation_parameters: FixedParameterGenerationParameters {
                q_bits_total: 4,
                p_bits_total: 5,
                p_bits_msb_fixed_1: 0,
                p_middle_bits_source: NumsNumber::Ln2,
                p_bits_lsb_fixed_1: 0,
            },
            p: n(23),
            q: n(11),
            r: n(2),
            g: n(2),
        },
        varying_parameters: VaryingParameters {
            n: guardians,
            k: quorum,
            date: "2023-05-02".to_string(),
            info: "toy".to_string(),
        },
    }
}

fn key(i: u16, k0: u64) -> GuardianPublicKey {
    GuardianPublicKey { i, opt_name: None, coefficient_commitments: vec![n(k0)] }
}

fn joint(v: u64) -> Result<JointElectionPublicKey, AggregationError> {
    Ok(JointElectionPublicKey(n(v)))
}

#[test]
fn joint_key_is_the_product_of_the_contributions() {
    let ep = toy_parameters(3, 1);
    // 6 * 18 * 8 = 864 = 37 * 23 + 13
    assert_eq!(JointElectionPublicKey::compute(&ep, &[key(1, 6), key(2, 18), key(3, 8)]), joint(13));
    // 2 * 2 * 2 = 8: the contributions are multiplied, and no one is a power of another
    assert_eq!(JointElectionPublicKey::compute(&ep, &[key(1, 2), key(2, 2), key(3, 2)]), joint(8));
    assert_eq!(JointElectionPublicKey::compute(&ep, &[key(1, 1), key(2, 1), key(3, 1)]), joint(1));
    let one = toy_parameters(1, 1);
    assert_eq!(JointElectionPublicKey::compute(&one, &[key(1, 12)]), joint(12));
}

#[test]
fn joint_key_does_not_depend_on_the_order() {
    let ep = toy_parameters(4, 1);
    let contributions = [6u64, 18, 8, 3];
    // 6 * 18 * 8 * 3 = 2592 = 112 * 23 + 16
    let orders: [[u16; 4]; 6] =
        [[1, 2, 3, 4], [4, 3, 2, 1], [2, 4, 1, 3], [3, 1, 4, 2], [1, 3, 2, 4], [4, 1, 2, 3]];
    for order in orders {
        let keys: Vec<GuardianPublicKey> =
            order.iter().map(|i| key(*i, contributions[*i as usize - 1])).collect();
        assert_eq!(JointElectionPublicKey::compute(&ep, &keys), joint(16), "{:?}", order);
    }
}

#[test]
fn every_missing_guardian_is_named() {
    let ep = toy_parameters(5, 1);
    let missing = |m: &[u16]| Err(AggregationError::MissingIndices { missing: m.to_vec() });
    assert_eq!(JointElectionPublicKey::compute(&ep, &[]), missing(&[1, 2, 3, 4, 5]));
    assert_eq!(JointElectionPublicKey::compute(&ep, &[key(3, 6)]), missing(&[1, 2, 4, 5]));
    assert_eq!(
        JointElectionPublicKey::compute(&ep, &[key(5, 6), key(1, 2), key(2, 4), key(3, 8)]),
        missing(&[4])
    );
    assert_eq!(
        JointElectionPublicKey::compute(&ep, &[key(5, 6), key(4, 2), key(2, 4)]),
        missing(&[1, 3])
    );
}

#[test]
fn removing_one_key_names_that_guardian() {
    let ep = toy_parameters(4, 1);
    let all = |skip: u16| -> Vec<GuardianPublicKey> {
        [(2u16, 6u64), (4, 18), (1, 8), (3, 3)]
            .iter()
            .filter(|(i, _)| *i != skip)
            .map(|(i, k0)| key(*i, *k0))
            .collect()
    };
    assert_eq!(JointElectionPublicKey::compute(&ep, &all(0)), joint(16));
    for i in 1..=4u16 {
        assert_eq!(
            JointElectionPublicKey::compute(&ep, &all(i)),
            Err(AggregationError::MissingIndices { missing: vec![i] })
        );
    }
}

#[test]
fn a_guardian_counts_once() {
    let ep = toy_parameters(3, 1);
    let duplicate = |i: u16| Err(AggregationError::DuplicateIndex { i });
    assert_eq!(
        JointElectionPublicKey::compute(&ep, &[key(1, 6), key(2, 18), key(2, 18), key(3, 8)]),
        duplicate(2)
    );
    // with another contribution, and with guardians missing
    assert_eq!(JointElectionPublicKey::compute(&ep, &[key(3, 6), key(3, 18)]), duplicate(3));
    assert_eq!(
        JointElectionPublicKey::compute(&ep, &[key(1, 6), key(1, 6), key(1, 6)]),
        duplicate(1)
    );
    // the first key that repeats an earlier one is named
    assert_eq!(
        JointElectionPublicKey::compute(&ep, &[key(1, 6), key(2, 6), key(2, 6), key(1, 6)]),
        duplicate(2)
    );
}

#[test]
fn the_first_invalid_key_is_reported_before_all_else() {
    let ep = toy_parameters(3, 1);
    let invalid = |position: usize, error: KeyValidationError| {
        Err(AggregationError::InvalidKey { position, error })
    };
    assert_eq!(
        JointElectionPublicKey::compute(&ep, &[key(1, 6), key(2, 5), key(3, 7)]),
        invalid(1, KeyValidationError::NotInSubgroup { position: 0 })
    );
    assert_eq!(
        JointElectionPublicKey::compute(&ep, &[key(1, 6), key(1, 6), key(4, 6)]),
        invalid(2, KeyValidationError::Index(KeyIndexError::OutOfRange { i: 4, n: 3 }))
    );
    assert_eq!(
        JointElectionPublicKey::compute(&ep, &[key(0, 6)]),
        invalid(0, KeyValidationError::Index(KeyIndexError::OutOfRange { i: 0, n: 3 }))
    );
    let none = GuardianPublicKey { i: 2, opt_name: None, coefficient_commitments: vec![] };
    assert_eq!(
        JointElectionPublicKey::compute(&ep, &[key(1, 6), none]),
        invalid(1, KeyValidationError::NoElement)
    );
    let second = GuardianPublicKey {
        i: 2,
        opt_name: None,
        coefficient_commitments: vec![n(6), n(5)],
    };
    assert_eq!(
        JointElectionPublicKey::compute(&ep, &[key(1, 6), second]),
        invalid(1, KeyValidationError::NotInSubgroup { position: 1 })
    );
}

#[test]
fn parameters_without_guardians_or_modulus_do_not_panic() {
    assert_eq!(JointElectionPublicKey::compute(&toy_parameters(0, 0), &[]), joint(1));
    let mut ep = toy_parameters(2, 1);
    ep.fixed_parameters.p = n(0);
    assert_eq!(
        JointElectionPublicKey::compute(&ep, &[key(1, 6), key(2, 6)]),
        Err(AggregationError::InvalidKey {
            position: 0,
            error: KeyValidationError::NotInSubgroup { position: 0 }
        })
    );
    assert_eq!(
        JointElectionPublicKey::compute(&ep, &[]),
        Err(AggregationError::MissingIndices { missing: vec![1, 2] })
    );
}

#[test]
fn only_the_first_commitment_is_a_contribution() {
    let ep = toy_parameters(2, 2);
    let first = GuardianPublicKey {
        i: 1,
        opt_name: Some("Ada".to_string()),
        coefficient_commitments: vec![n(6), n(18)],
    };
    let second = GuardianPublicKey {
        i: 2,
        opt_name: None,
        coefficient_commitments: vec![n(8), n(9)],
    };
    // 6 * 8 = 48 = 2 * 23 + 2
    assert_eq!(JointElectionPublicKey::compute(&ep, &[second, first]), joint(2));
}

#[test]
fn joint_key_of_every_guardian_count() {
    // all guardians contribute 2: the joint key is 2^n mod 23
    let powers = [2u64, 4, 8, 16, 9, 18, 13, 3, 6, 12, 1, 2];
    for count in 1..=12u16 {
        let ep = toy_parameters(count, 1);
        let keys: Vec<GuardianPublicKey> = (1..=count).rev().map(|i| key(i, 2)).collect();
        let joint_key = JointElectionPublicKey::compute(&ep, &keys).unwrap();
        assert_eq!(joint_key.0, n(powers[count as usize - 1]));
        assert_eq!(joint_key.validate(&ep), Ok(()));
    }
}

#[test]
fn three_guardians_with_standard_parameters() {
    let ep = ElectionParameters {
        fixed_parameters: make_standard_parameters_v2_0(),
        varying_parameters: VaryingParameters {
            n: 3,
            k: 2,
            date: "2023-05-02".to_string(),
            info: "ceremony".to_string(),
        },
    };
    let mut csprng = Csprng::new(b"three guardians");
    let mut keys: Vec<GuardianPublicKey> = Vec::new();
    for i in 1..=3u16 {
        let secret = GuardianSecretKey::generate(&mut csprng, &ep, i, None);
        let public = secret.make_public_key();
        assert_eq!(public.validate(&ep), Ok(()));
        keys.push(public);
    }
    let key3 = keys.pop().unwrap();
    let key2 = keys.pop().unwrap();
    let key1 = keys.pop().unwrap();

    let expected = key1
        .public_key_k0()
        .mul(key2.public_key_k0())
        .mul(key3.public_key_k0())
        .rem(&ep.fixed_parameters.p);

    let in_order = [key1, key2, key3];
    let joint_in_order = JointElectionPublicKey::compute(&ep, &in_order).unwrap();
    let [key1, key2, key3] = in_order;
    let rearranged = [key3, key1, key2];
    let joint_rearranged = JointElectionPublicKey::compute(&ep, &rearranged).unwrap();
    assert_eq!(joint_in_order, joint_rearranged);
    assert_eq!(joint_in_order.0, expected);
    assert!(!joint_in_order.0.eq_value(&BigNat::one()));
    assert_eq!(joint_in_order.validate(&ep), Ok(()));
    assert_eq!(joint_in_order.to_be_bytes_len_p(&ep.fixed_parameters).len(), 512);

    let [_key3, key1, key2] = rearranged;
    assert_eq!(
        JointElectionPublicKey::compute(&ep, &[key1, key2]),
        Err(AggregationError::MissingIndices { missing: vec![3] })
    );
}

#[test]
fn joint_key_validation_is_subgroup_membership() {
    let ep = toy_parameters(3, 1);
    let members = [1u64, 2, 4, 8, 16, 9, 18, 13, 3, 6, 12];
    for v in 0..40u64 {
        let expected = if members.contains(&v) {
            Ok(())
        } else {
            Err(KeyValidationError::NotInSubgroup { position: 0 })
        };
        assert_eq!(JointElectionPublicKey(n(v)).validate(&ep), expected, "{}", v);
    }
}

#[test]
fn joint_key_bytes_have_the_length_of_p() {
    let mut ep = toy_parameters(3, 1);
    assert_eq!(JointElectionPublicKey(n(13)).to_be_bytes_len_p(&ep.fixed_parameters), vec![13]);
    ep.fixed_parameters.p = n(0x0100_0001);
    assert_eq!(
        JointElectionPublicKey(n(13)).to_be_bytes_len_p(&ep.fixed_parameters),
        vec![0, 0, 0, 13]
    );
    assert_eq!(
        JointElectionPublicKey(n(0x0100_0000)).to_be_bytes_len_p(&ep.fixed_parameters),
        vec![1, 0, 0, 0]
    );
    assert_eq!(
        JointElectionPublicKey(n(0)).to_be_bytes_len_p(&ep.fixed_parameters),
        vec![0, 0, 0, 0]
    );
}

fn text_of(joint_key: &JointElectionPublicKey) -> Vec<u8> {
    let mut text = Vec::new();
    joint_key.to_stdiowrite(&mut text);
    text
}

#[test]
fn joint_key_text_is_quoted_hex_and_a_newline() {
    assert_eq!(text_of(&JointElectionPublicKey(n(13))), b"\"0D\"\n".to_vec());
    assert_eq!(text_of(&JointElectionPublicKey(n(0xABC))), b"\"0ABC\"\n".to_vec());
    assert_eq!(text_of(&JointElectionPublicKey(n(0))), b"\"00\"\n".to_vec());
    // the text is written behind what is there
    let mut two = b"x".to_vec();
    JointElectionPublicKey(n(1)).to_stdiowrite(&mut two);
    JointElectionPublicKey(n(2)).to_stdiowrite(&mut two);
    assert_eq!(two, b"x\"01\"\n\"02\"\n".to_vec());
}

#[test]
fn joint_key_text_round_trip() {
    let ep = toy_parameters(3, 1);
    for v in [1u64, 2, 4, 8, 16, 9, 18, 13, 3, 6, 12] {
        let joint_key = JointElectionPublicKey(n(v));
        assert_eq!(
            JointElectionPublicKey::from_stdioread_validated(&text_of(&joint_key), &ep),
            Ok(joint_key)
        );
    }
    let standard = ElectionParameters {
        fixed_parameters: make_standard_parameters_v2_0(),
        varying_parameters: VaryingParameters {
            n: 1,
            k: 1,
            date: String::new(),
            info: String::new(),
        },
    };
    let g = JointElectionPublicKey(make_standard_parameters_v2_0().g);
    let text = text_of(&g);
    assert_eq!(text.len(), 1027);
    assert_eq!(JointElectionPublicKey::from_stdioread_validated(&text, &standard), Ok(g));
}

#[test]
fn reading_rejects_what_is_malformed_and_what_is_invalid() {
    let ep = toy_parameters(3, 1);
    let read = |text: &[u8]| JointElectionPublicKey::from_stdioread_validated(text, &ep);
    assert_eq!(read(b"\"0D\"\n"), joint_codec(13));
    assert_eq!(read(b"\"0D\""), joint_codec(13));
    assert_eq!(read(b" \t\r\n\"d\" \n\n"), joint_codec(13));
    assert_eq!(read(b"\"000D\""), joint_codec(13));
    for malformed in [
        &b""[..],
        b"\n",
        b"\"",
        b"\"\"",
        b"0D",
        b"\"0D",
        b"0D\"",
        b"\"0D\"x",
        b"x\"0D\"",
        b"\"0 D\"",
        b"\"0D\" \"0D\"",
        b"\"0x0D\"",
        b"'0D'",
        b"13",
    ] {
        assert_eq!(read(malformed), Err(CodecError::Malformed), "{:?}", malformed);
    }
    let invalid =
        Err(CodecError::Invalid { error: KeyValidationError::NotInSubgroup { position: 0 } });
    assert_eq!(read(b"\"05\"\n"), invalid);
    assert_eq!(read(b"\"00\"\n"), invalid);
    assert_eq!(read(b"\"17\"\n"), invalid);
    assert_eq!(read(b"\"FFFFFFFFFFFFFFFFFFFFFFFF\"\n"), invalid);
}

fn joint_codec(v: u64) -> Result<JointElectionPublicKey, CodecError> {
    Ok(JointElectionPublicKey(n(v)))
}
