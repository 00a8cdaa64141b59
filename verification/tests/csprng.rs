use eg::bignat::BigNat;
use eg::csprng::Csprng;

fn hex(bytes: &[u8]) -> String {
    let mut s = String::new();
    for b in bytes {
        s.push_str(&format!("{:02x}", b));
    }
    s
}

#[test]
fn draws_are_shake256_of_seed_and_counter() {
    // SHAKE256 of: 8 bytes for the length 3, "abc", 8 bytes for the counter
    let mut csprng = Csprng::new(b"abc");
    assert_eq!(
        hex(&csprng.next_bytes(32)),
        "bd004079a3ff40146df8b406c595d88cc30a3fcbc50fb674fe019c6aba96ad23"
    );
    assert_eq!(hex(&csprng.next_bytes(16)), "b656d607a79f4e8160023fca41b30a67");
}

#[test]
fn draws_have_the_length_asked_for() {
    let mut csprng = Csprng::new(b"lengths");
    for len in [0usize, 1, 31, 136, 137, 1000] {
        assert_eq!(csprng.next_bytes(len).len(), len);
    }
}

#[test]
fn same_seed_gives_same_draws() {
    let mut a = Csprng::new(b"seed");
    let mut b = Csprng::new(b"seed");
    for _ in 0..5 {
        assert_eq!(a.next_bytes(40), b.next_bytes(40));
    }
    let mut c = Csprng::new(b"seee");
    assert_ne!(Csprng::new(b"seed").next_bytes(40), c.next_bytes(40));
}

#[test]
fn successive_draws_differ() {
    let mut csprng = Csprng::new(b"seed");
    let first = csprng.next_bytes(32);
    let second = csprng.next_bytes(32);
    assert_ne!(first, second);
}

#[test]
fn number_below_end_is_the_draw_reduced() {
    // 18 bytes are drawn for an end of two bytes, and reduced mod 1000
    let mut csprng = Csprng::new(b"abc");
    assert_eq!(csprng.next_biguint_lt(&BigNat::from_u64(1000)), BigNat::from_u64(626));
}

#[test]
fn numbers_below_end_are_below_end() {
    let mut csprng = Csprng::new(b"range");
    let end = BigNat::from_u64(3);
    let mut seen = [false; 3];
    for _ in 0..100 {
        let v = csprng.next_biguint_lt(&end);
        assert!(v.lt(&end));
        seen[v.to_be_bytes_padded(1)[0] as usize] = true;
    }
    assert_eq!(seen, [true, true, true]);
    let one = BigNat::one();
    assert!(csprng.next_biguint_lt(&one).is_zero());
}
