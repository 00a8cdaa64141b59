//! The probabilistic primality test: trial division by small numbers, then rounds of the
//! Miller-Rabin test with bases drawn from the generator.

use vstd::prelude::*;
use vstd::arithmetic::div_mod::lemma_mul_mod_noop;
use vstd::arithmetic::power::{lemma_pow_multiplies, lemma_square_is_pow2, pow};
use vstd::arithmetic::power2::{lemma_pow2_unfold, pow2};
use crate::big_endian::two_adicity;
use crate::bignat::BigNat;
use crate::csprng::{counter_after, drawn_below, lemma_counter_after_step, Csprng};
use crate::number_theory::is_prime_number;
use crate::primality_laws::lemma_prime_passes_primality_test;

verus! {

/// Trial division tries the divisors from 2 up to, not including, this number.
pub const TRIAL_DIVISION_LIMIT: u64 = 256;

/// The number of rounds of the Miller-Rabin test. A number that is not prime is a strong
/// probable prime to at most a quarter of the bases: with bases chosen at random it passes
/// all rounds with a chance of at most `4^-64 = 2^-128`.
pub const MILLER_RABIN_ROUNDS: u64 = 64;

/// The least divisor of `n` that is at least `from` and below the limit of the trial
/// division; the limit if there is none.
pub open spec fn first_small_divisor(n: nat, from: nat) -> nat
    decreases TRIAL_DIVISION_LIMIT - from,
{
    if from < 2 || from >= TRIAL_DIVISION_LIMIT {
        TRIAL_DIVISION_LIMIT as nat
    } else if n % from == 0 {
        from
    } else {
        first_small_divisor(n, from + 1)
    }
}

/// Whether `n` is a strong probable prime to the base `a`, that is, whether `n` passes
/// one round of the Miller-Rabin test with `a`: with `n - 1 = d * 2^s` and `d` odd,
/// either `a^d = 1`, or `a^(d * 2^r) = -1` for some `r < s`, all mod `n`.
pub open spec fn is_strong_probable_prime(n: nat, a: nat) -> bool {
    let s = two_adicity((n - 1) as nat);
    let d = ((n - 1) as nat) / pow2(s);
    n >= 2 && (pow(a as int, d) % (n as int) == 1 || exists|r: nat|
        r < s && pow(a as int, d * #[trigger] pow2(r)) % (n as int) == n - 1)
}

/// The base of round `round` of the test of `n`, a number from 2 to `n - 2` drawn from
/// the generator.
pub open spec fn miller_rabin_base(seed: Seq<u8>, counter: u64, n: nat, round: nat) -> nat {
    2 + drawn_below(seed, counter_after(counter, round), (n - 3) as nat)
}

/// The verdict of the primality test on `n`, with a generator of the given seed and
/// counter. Numbers below 2 fail. A number with a divisor below the limit of the trial
/// division passes if it is that divisor. Every other number passes if it passes every
/// round of the Miller-Rabin test.
pub open spec fn is_probable_prime(n: nat, seed: Seq<u8>, counter: u64) -> bool {
    if n < 2 {
        false
    } else if first_small_divisor(n, 2) < TRIAL_DIVISION_LIMIT {
        n == first_small_divisor(n, 2)
    } else {
        forall|round: nat|
            round < MILLER_RABIN_ROUNDS ==> is_strong_probable_prime(
                n,
                #[trigger] miller_rabin_base(seed, counter, n, round),
            )
    }
}

/// The number of draws that the primality test of `n` makes: one for each round of the
/// Miller-Rabin test, where the trial division does not decide.
pub open spec fn primality_test_draws(n: nat) -> nat {
    if n >= 2 && first_small_divisor(n, 2) >= TRIAL_DIVISION_LIMIT {
        MILLER_RABIN_ROUNDS as nat
    } else {
        0
    }
}

/// Squaring mod `n` doubles the exponent.
proof fn lemma_square_step(a: int, e: nat, n: int)
    requires
        n > 0,
    ensures
        (((pow(a, e) % n) * (pow(a, e) % n)) % n) == pow(a, e * 2) % n,
{
    let y = pow(a, e);
    lemma_mul_mod_noop(y, y, n);
    lemma_square_is_pow2(y);
    lemma_pow_multiplies(a, e, 2);
}

/// One round of the Miller-Rabin test: whether `n` is a strong probable prime to the
/// base `a`.
pub fn miller_rabin_round(n: &BigNat, a: &BigNat) -> (res: bool)
    ensures
        res == is_strong_probable_prime(n@, a@),
{
    let two = BigNat::from_u64(2);
    if n.lt(&two) {
        return false;
    }
    let one = BigNat::one();
    let n_minus_1 = n.sub(&one);
    let s: u64 = match n_minus_1.trailing_zeros() {
        Some(s) => s,
        None => vstd::pervasive::unreached(),
    };
    let d = n_minus_1.shr(s);
    proof {
        vstd::arithmetic::power2::lemma2_to64();
        assert(d@ * pow2(0) == d@) by (nonlinear_arith)
            requires
                pow2(0) == 1,
        ;
    }
    let mut x = a.modpow(&d, n);
    if x.eq_value(&one) {
        return true;
    }
    let mut r: u64 = 0;
    while r < s
        invariant
            r <= s,
            n@ >= 2,
            n_minus_1@ == n@ - 1,
            s == two_adicity(n_minus_1@),
            d@ == n_minus_1@ / pow2(s as nat),
            pow(a@ as int, d@) % (n@ as int) != 1,
            x@ == pow(a@ as int, d@ * pow2(r as nat)) % (n@ as int),
            forall|t: nat|
                t < r ==> pow(a@ as int, d@ * #[trigger] pow2(t)) % (n@ as int) != n@ - 1,
        decreases s - r,
    {
        if x.eq_value(&n_minus_1) {
            return true;
        }
        proof {
            lemma_square_step(a@ as int, d@ * pow2(r as nat), n@ as int);
            lemma_pow2_unfold((r + 1) as nat);
            assert(d@ * pow2(r as nat) * 2 == d@ * pow2((r + 1) as nat)) by (nonlinear_arith)
                requires
                    pow2((r + 1) as nat) == 2 * pow2(r as nat),
            ;
        }
        x = x.mul(&x).rem(n);
        r = r + 1;
    }
    false
}

/// The primality test.
///
/// `n` passes if it is at least 2, has no divisor below the limit of the trial division
/// but itself, and is a strong probable prime to every one of the bases, which are drawn
/// from `csprng`. One base is drawn for each round, also after a round has failed.
///
/// A prime always passes. A number that is not prime passes only if it is a strong
/// probable prime to all of the bases.
pub fn is_prime(n: &BigNat, csprng: &mut Csprng) -> (res: bool)
    ensures
        res == is_probable_prime(n@, old(csprng).seed(), old(csprng).counter()),
        is_prime_number(n@) ==> res,
        final(csprng).seed() == old(csprng).seed(),
        final(csprng).counter() == counter_after(
            old(csprng).counter(),
            primality_test_draws(n@),
        ),
{
    let ghost seed = csprng.seed();
    let ghost start = csprng.counter();
    proof {
        lemma_counter_after_step(start, 0);
        if is_prime_number(n@) {
            lemma_prime_passes_primality_test(n@, seed, start);
        }
    }
    let two = BigNat::from_u64(2);
    if n.lt(&two) {
        return false;
    }
    let mut divisor: u64 = 2;
    while divisor < TRIAL_DIVISION_LIMIT
        invariant
            2 <= divisor <= TRIAL_DIVISION_LIMIT,
            n@ >= 2,
            is_prime_number(n@) ==> is_probable_prime(n@, seed, start),
            first_small_divisor(n@, 2) == first_small_divisor(n@, divisor as nat),
        decreases TRIAL_DIVISION_LIMIT - divisor,
    {
        let small = BigNat::from_u64(divisor);
        if n.rem(&small).is_zero() {
            return n.eq_value(&small);
        }
        divisor = divisor + 1;
    }
    proof {
        // no number from 2 to 3 divides `n`, so `n` is more than 3
        assert(n@ > 3) by {
            reveal_with_fuel(first_small_divisor, 3);
            if n@ == 2 {
                assert(n@ % 2 == 0);
            } else if n@ == 3 {
                assert(n@ % 3 == 0);
            }
        }
    }
    let three = BigNat::from_u64(3);
    let range = n.sub(&three);
    let mut passed = true;
    let mut round: u64 = 0;
    while round < MILLER_RABIN_ROUNDS
        invariant
            round <= MILLER_RABIN_ROUNDS,
            n@ > 3,
            range@ == n@ - 3,
            two@ == 2,
            csprng.seed() == seed,
            csprng.counter() == counter_after(start, round as nat),
            passed == forall|t: nat|
                t < round ==> is_strong_probable_prime(
                    n@,
                    #[trigger] miller_rabin_base(seed, start, n@, t),
                ),
        decreases MILLER_RABIN_ROUNDS - round,
    {
        let base = csprng.next_biguint_lt(&range).add(&two);
        proof {
            lemma_counter_after_step(start, round as nat);
            assert(base@ == miller_rabin_base(seed, start, n@, round as nat));
        }
        if passed {
            passed = miller_rabin_round(n, &base);
        }
        round = round + 1;
    }
    passed
}

} // verus!
