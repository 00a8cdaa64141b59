use eg::bignat::BigNat;
use eg::hex_text::{decode_hex, encode_hex};

fn n(v: u64) -> BigNat {
    BigNat::from_u64(v)
}

#[test]
fn from_be_bytes_drops_leading_zeros() {
    assert_eq!(BigNat::from_be_bytes(&[0, 0, 1, 2]), BigNat::from_be_bytes(&[1, 2]));
    assert_eq!(BigNat::from_be_bytes(&[1, 2]).to_be_bytes(), vec![1, 2]);
    assert_eq!(BigNat::from_be_bytes(&[0, 0]).to_be_bytes(), Vec::<u8>::new());
    assert_eq!(BigNat::from_be_bytes(&[]), BigNat::zero());
    assert!(BigNat::from_be_bytes(&[0]).is_zero());
    assert!(!BigNat::from_be_bytes(&[0, 1]).is_zero());
}

#[test]
fn from_u64_is_big_endian() {
    assert_eq!(n(0x0102_0304).to_be_bytes(), vec![1, 2, 3, 4]);
    assert_eq!(n(0).to_be_bytes(), Vec::<u8>::new());
    assert_eq!(n(255).to_be_bytes(), vec![255]);
    assert_eq!(n(256).to_be_bytes(), vec![1, 0]);
    assert_eq!(n(u64::MAX).to_be_bytes(), vec![255; 8]);
    assert_eq!(BigNat::one().to_be_bytes(), vec![1]);
}

#[test]
fn byte_len_counts_the_minimal_bytes() {
    assert_eq!(n(0).byte_len(), 0);
    assert_eq!(n(1).byte_len(), 1);
    assert_eq!(n(255).byte_len(), 1);
    assert_eq!(n(256).byte_len(), 2);
    assert_eq!(n(u64::MAX).byte_len(), 8);
}

#[test]
fn padded_bytes_have_the_length_asked_for() {
    assert_eq!(n(0x0102).to_be_bytes_padded(4), vec![0, 0, 1, 2]);
    assert_eq!(n(0x0102).to_be_bytes_padded(2), vec![1, 2]);
    assert_eq!(n(0x0102).to_be_bytes_padded(1), vec![1, 2]);
    assert_eq!(n(0).to_be_bytes_padded(3), vec![0, 0, 0]);
    assert_eq!(n(0).to_be_bytes_padded(0), Vec::<u8>::new());
}

#[test]
fn arithmetic_gives_exact_values() {
    assert_eq!(n(1234).add(&n(4321)), n(5555));
    assert_eq!(n(u64::MAX).add(&n(1)).to_be_bytes(), vec![1, 0, 0, 0, 0, 0, 0, 0, 0]);
    assert_eq!(n(5555).sub(&n(1234)), n(4321));
    assert_eq!(n(7).sub(&n(7)), n(0));
    assert_eq!(n(1234).mul(&n(4321)), n(5332114));
    assert_eq!(n(1 << 40).mul(&n(1 << 40)).to_be_bytes(), vec![1, 0, 0, 0, 0, 0, 0, 0, 0, 0, 0]);
    assert_eq!(n(0).mul(&n(99)), n(0));
    assert_eq!(n(1000).rem(&n(7)), n(6));
    assert_eq!(n(6).rem(&n(7)), n(6));
    assert_eq!(n(14).rem(&n(7)), n(0));
}

#[test]
fn modpow_gives_exact_values() {
    assert_eq!(n(4).modpow(&n(13), &n(497)), n(445));
    assert_eq!(n(3).modpow(&n(200), &n(1000007)), n(959082));
    assert_eq!(n(2).modpow(&n(11), &n(23)), n(1));
    assert_eq!(n(5).modpow(&n(0), &n(7)), n(1));
    assert_eq!(n(5).modpow(&n(0), &n(1)), n(0));
    assert_eq!(n(0).modpow(&n(5), &n(7)), n(0));
    // an even modulus takes another path of the outside function
    assert_eq!(n(3).modpow(&n(5), &n(10)), n(3));
}

#[test]
fn shifts_and_bit_counts_give_exact_values() {
    assert_eq!(n(1000).shr(3), n(125));
    assert_eq!(n(1000).shr(0), n(1000));
    assert_eq!(n(1000).shr(10), n(0));
    assert_eq!(n(1).shr(u64::MAX), n(0));
    assert_eq!(n(0).bits(), 0);
    assert_eq!(n(1).bits(), 1);
    assert_eq!(n(255).bits(), 8);
    assert_eq!(n(256).bits(), 9);
    assert_eq!(n(u64::MAX).bits(), 64);
    assert_eq!(n(0).trailing_zeros(), None);
    assert_eq!(n(1).trailing_zeros(), Some(0));
    assert_eq!(n(96).trailing_zeros(), Some(5));
    assert_eq!(n(1 << 63).trailing_zeros(), Some(63));
}

#[test]
fn comparisons_go_by_value() {
    assert!(n(3).lt(&n(4)));
    assert!(!n(4).lt(&n(4)));
    assert!(!n(5).lt(&n(4)));
    assert!(n(255).lt(&n(256)));
    assert!(n(4).le(&n(4)));
    assert!(!n(5).le(&n(4)));
    assert!(n(0).le(&n(0)));
    assert!(n(77).eq_value(&BigNat::from_be_bytes(&[0, 77])));
    assert!(!n(77).eq_value(&n(78)));
    assert!(!n(1).eq_value(&n(256)));
}

#[test]
fn clone_keeps_the_value() {
    let a = BigNat::from_be_bytes(&[9, 8, 7, 6, 5, 4, 3, 2, 1, 0]);
    assert_eq!(a.clone(), a);
}

#[test]
fn hex_text_is_upper_case_and_two_digits_a_byte() {
    assert_eq!(n(0).to_hex(), b"00".to_vec());
    assert_eq!(n(10).to_hex(), b"0A".to_vec());
    assert_eq!(n(0xABCDEF).to_hex(), b"ABCDEF".to_vec());
    assert_eq!(n(0x1_0000).to_hex(), b"010000".to_vec());
    assert_eq!(n(0x0123_4567_89AB_CDEF).to_hex(), b"0123456789ABCDEF".to_vec());
}

#[test]
fn hex_text_is_read_in_both_cases_and_any_length() {
    assert_eq!(BigNat::from_hex(b"00"), Some(n(0)));
    assert_eq!(BigNat::from_hex(b"0"), Some(n(0)));
    assert_eq!(BigNat::from_hex(b"abcdef"), Some(n(0xABCDEF)));
    assert_eq!(BigNat::from_hex(b"ABCDEF"), Some(n(0xABCDEF)));
    assert_eq!(BigNat::from_hex(b"F"), Some(n(15)));
    assert_eq!(BigNat::from_hex(b"123"), Some(n(0x123)));
    assert_eq!(BigNat::from_hex(b"000000ff"), Some(n(255)));
    assert_eq!(BigNat::from_hex(b""), None);
    assert_eq!(BigNat::from_hex(b"12G4"), None);
    assert_eq!(BigNat::from_hex(b"G"), None);
    assert_eq!(BigNat::from_hex(b" 12"), None);
    assert_eq!(BigNat::from_hex(b"0x12"), None);
    assert_eq!(BigNat::from_hex(b"12\n"), None);
    assert_eq!(BigNat::from_hex(b"/"), None);
    assert_eq!(BigNat::from_hex(b":"), None);
    assert_eq!(BigNat::from_hex(b"@"), None);
    assert_eq!(BigNat::from_hex(b"`"), None);
    assert_eq!(BigNat::from_hex(b"g"), None);
}

#[test]
fn hex_text_round_trip() {
    for v in [0u64, 1, 15, 16, 255, 256, 0xDEAD_BEEF, u64::MAX] {
        let x = n(v);
        assert_eq!(BigNat::from_hex(&x.to_hex()), Some(x));
    }
    let big = BigNat::from_be_bytes(&[0xFE; 70]);
    assert_eq!(BigNat::from_hex(&big.to_hex()), Some(big));
}

#[test]
fn hex_digits_of_bytes() {
    assert_eq!(encode_hex(&[]), Vec::<u8>::new());
    assert_eq!(encode_hex(&[0]), b"00".to_vec());
    assert_eq!(encode_hex(&[0, 0x0A, 0xF0, 0x9C]), b"000AF09C".to_vec());
    let all: Vec<u8> = (0..=255).collect();
    let text = encode_hex(&all);
    assert_eq!(text.len(), 512);
    assert_eq!(&text[..8], b"00010203");
    assert_eq!(&text[504..], b"FCFDFEFF");
    assert_eq!(decode_hex(&text), Some(all));
}

#[test]
fn bytes_of_hex_digits() {
    assert_eq!(decode_hex(b"000af09C"), Some(vec![0, 0x0A, 0xF0, 0x9C]));
    assert_eq!(decode_hex(b"abc"), Some(vec![0x0A, 0xBC]));
    assert_eq!(decode_hex(b"0"), Some(vec![0]));
    assert_eq!(decode_hex(b"000"), Some(vec![0, 0]));
    assert_eq!(decode_hex(b""), None);
    assert_eq!(decode_hex(b"0g"), None);
    assert_eq!(decode_hex(b"g0"), None);
    assert_eq!(decode_hex(b"g00"), None);
    assert_eq!(decode_hex(b"00g"), None);
}
