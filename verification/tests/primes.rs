use eg::bignat::BigNat;
use eg::csprng::Csprng;
use eg::primes::{is_prime, miller_rabin_round};

fn n(v: u64) -> BigNat {
    BigNat::from_u64(v)
}

fn naive_is_prime(v: u64) -> bool {
    if v < 2 {
        return false;
    }
    let mut d = 2;
    while d * d <= v {
        if v % d == 0 {
            return false;
        }
        d += 1;
    }
    true
}

#[test]
fn small_numbers_are_judged_exactly() {
    let mut csprng = Csprng::new(b"small numbers");
    for v in 0..2000u64 {
        assert_eq!(is_prime(&n(v), &mut csprng), naive_is_prime(v), "{}", v);
    }
}

#[test]
fn numbers_around_the_square_of_the_limit_are_judged_exactly() {
    let mut csprng = Csprng::new(b"around the square");
    // 66049 = 257 * 257 is the first number that is not prime and passes the trial division
    for v in (65000..66200u64).chain((2001..65000).step_by(97)) {
        assert_eq!(is_prime(&n(v), &mut csprng), naive_is_prime(v), "{}", v);
    }
}

#[test]
fn carmichael_numbers_fail() {
    let mut csprng = Csprng::new(b"carmichael");
    // none of these has a factor below the limit of the trial division
    for v in [
        118_901_521u64,    // 271 * 541 * 811
        172_947_529,       // 307 * 613 * 919
        413_138_881,       // 617 * 661 * 1013
        2_199_733_160_881, // 6037 * 12073 * 30181
    ] {
        assert!(!naive_small_factor(v));
        assert!(!is_prime(&n(v), &mut csprng), "{}", v);
    }
    // products of two primes above the limit of the trial division
    assert!(!is_prime(&n(257 * 263), &mut csprng));
    assert!(!is_prime(&n(65537 * 65539), &mut csprng));
    assert!(!is_prime(&n(4_294_967_291 * 4_294_967_279), &mut csprng));
}

fn naive_small_factor(v: u64) -> bool {
    (2..256u64).any(|d| v % d == 0)
}

#[test]
fn large_primes_pass() {
    let mut csprng = Csprng::new(b"large primes");
    assert!(is_prime(&n(257), &mut csprng));
    assert!(is_prime(&n(65537), &mut csprng));
    assert!(is_prime(&n(4_294_967_291), &mut csprng));
    assert!(is_prime(&n(18_446_744_073_709_551_557), &mut csprng));
    // 2^127 - 1
    let mut bytes = vec![0xFFu8; 16];
    bytes[0] = 0x7F;
    assert!(is_prime(&BigNat::from_be_bytes(&bytes), &mut csprng));
    // 2^128 - 1 is divisible by 3, and 2^128 + 1 by 59649589127497217
    assert!(!is_prime(&BigNat::from_be_bytes(&[0xFF; 16]), &mut csprng));
    let mut fermat = vec![0u8; 17];
    fermat[0] = 1;
    fermat[16] = 1;
    assert!(!is_prime(&BigNat::from_be_bytes(&fermat), &mut csprng));
}

#[test]
fn trial_division_draws_nothing_and_rounds_draw_one_base_each() {
    let mut csprng = Csprng::new(b"draws");
    let mut fresh = Csprng::new(b"draws");
    assert!(!is_prime(&n(15), &mut csprng));
    assert!(is_prime(&n(251), &mut csprng));
    assert!(!is_prime(&n(1), &mut csprng));
    assert_eq!(csprng.next_bytes(8), fresh.next_bytes(8));

    let mut csprng = Csprng::new(b"draws");
    let mut fresh = Csprng::new(b"draws");
    assert!(!is_prime(&n(257 * 263), &mut csprng));
    for _ in 0..64 {
        fresh.next_bytes(1);
    }
    assert_eq!(csprng.next_bytes(8), fresh.next_bytes(8));
}

#[test]
fn miller_rabin_round_knows_strong_liars() {
    // 221 = 13 * 17: 220 = 55 * 2^2; 174^55 = 47, 174^110 = 220 (mod 221)
    assert!(miller_rabin_round(&n(221), &n(174)));
    // 137^55 = 188, 137^110 = 205 (mod 221)
    assert!(!miller_rabin_round(&n(221), &n(137)));
    // the base 1 and the base n - 1 tell nothing
    assert!(miller_rabin_round(&n(221), &n(1)));
    assert!(miller_rabin_round(&n(221), &n(220)));
    // 2047 = 23 * 89 is a strong pseudoprime to the base 2
    assert!(miller_rabin_round(&n(2047), &n(2)));
    assert!(!miller_rabin_round(&n(2047), &n(3)));
}

#[test]
fn miller_rabin_round_passes_primes_with_every_base() {
    for p in [3u64, 5, 7, 13, 97, 257, 7919] {
        for a in 1..p {
            assert!(miller_rabin_round(&n(p), &n(a)), "{} {}", p, a);
        }
    }
}

#[test]
fn miller_rabin_round_on_small_and_even_numbers() {
    assert!(!miller_rabin_round(&n(0), &n(2)));
    assert!(!miller_rabin_round(&n(1), &n(2)));
    // 2 - 1 = 1 * 2^0, and 3^1 = 1 (mod 2)
    assert!(miller_rabin_round(&n(2), &n(3)));
    assert!(!miller_rabin_round(&n(2), &n(2)));
    // 10 - 1 = 9 * 2^0: 2^9 = 2 (mod 10)
    assert!(!miller_rabin_round(&n(10), &n(2)));
    // a multiple of n is 0 to every power
    assert!(!miller_rabin_round(&n(9), &n(18)));
}
