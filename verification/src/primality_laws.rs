//! What holds of the primality test, whatever the bases that are drawn: it never rejects
//! a prime.

use vstd::prelude::*;
use vstd::arithmetic::div_mod::{
    lemma_div_denominator, lemma_mod_bound, lemma_small_mod, lemma_sub_mod_noop,
};
use vstd::arithmetic::power::{lemma_pow_multiplies, lemma_square_is_pow2, pow};
use vstd::arithmetic::power2::{lemma2_to64, lemma_pow2_pos, lemma_pow2_unfold, pow2};
use crate::csprng::{counter_after, drawn_below};
use crate::fixed_parameters::FixedParameters;
use crate::number_theory::{
    divides, is_prime_number, lemma_fermat_little, lemma_prime_divides_product,
};
use crate::big_endian::two_adicity;
use crate::primes::{
    first_small_divisor, is_probable_prime, is_strong_probable_prime, miller_rabin_base,
    MILLER_RABIN_ROUNDS, TRIAL_DIVISION_LIMIT,
};

verus! {

/// A positive number is its odd part times 2 to the power of its two-adicity.
proof fn lemma_two_adicity_divides(v: nat)
    requires
        v > 0,
    ensures
        v == (v / pow2(two_adicity(v))) * pow2(two_adicity(v)),
    decreases v,
{
    lemma2_to64();
    if v % 2 == 1 {
        assert(two_adicity(v) == 0);
    } else {
        let h = v / 2;
        let s = two_adicity(h);
        lemma_two_adicity_divides(h);
        assert(two_adicity(v) == s + 1);
        lemma_pow2_unfold(s + 1);
        lemma_pow2_pos(s);
        lemma_div_denominator(v as int, 2, pow2(s) as int);
        let d = h / pow2(s);
        assert(v / (2 * pow2(s)) == d);
        assert(v == d * (2 * pow2(s))) by (nonlinear_arith)
            requires
                v == 2 * h,
                h == d * pow2(s),
        ;
    }
}

/// Modulo a prime, 1 has the square roots 1 and -1 and no other.
proof fn lemma_square_roots_of_one(n: nat, y: int)
    requires
        is_prime_number(n),
        0 <= y < n,
        (y * y) % (n as int) == 1,
    ensures
        y == 1 || y == n - 1,
{
    let ni = n as int;
    lemma_small_mod(1, n);
    lemma_small_mod(0, n);
    lemma_sub_mod_noop(y * y, 1, ni);
    assert(y * y - 1 == (y - 1) * (y + 1)) by (nonlinear_arith);
    lemma_prime_divides_product(n, y - 1, y + 1);
    if y == 0 {
        assert(y * y == 0);
    } else {
        if (y - 1) % ni == 0 {
            lemma_small_mod((y - 1) as nat, n);
        } else {
            if y + 1 < ni {
                lemma_small_mod((y + 1) as nat, n);
            }
        }
    }
}

/// Modulo a prime `n`: where `a^(d * 2^r) = 1`, either `a^d = 1`, or `a^(d * 2^t) = -1`
/// for some `t < r`.
proof fn lemma_descent(n: nat, a: int, d: nat, r: nat)
    requires
        is_prime_number(n),
        pow(a, d * pow2(r)) % (n as int) == 1,
    ensures
        pow(a, d) % (n as int) == 1 || exists|t: nat|
            t < r && pow(a, d * #[trigger] pow2(t)) % (n as int) == n - 1,
    decreases r,
{
    let ni = n as int;
    lemma2_to64();
    if r == 0 {
        assert(d * pow2(0) == d) by (nonlinear_arith)
            requires
                pow2(0) == 1,
        ;
    } else {
        let k = (r - 1) as nat;
        let e = d * pow2(k);
        let y = pow(a, e) % ni;
        lemma_mod_bound(pow(a, e), ni);
        lemma_pow2_unfold(r);
        assert(e * 2 == d * pow2(r)) by (nonlinear_arith)
            requires
                e == d * pow2(k),
                pow2(r) == 2 * pow2(k),
        ;
        vstd::arithmetic::div_mod::lemma_mul_mod_noop(pow(a, e), pow(a, e), ni);
        lemma_square_is_pow2(pow(a, e));
        lemma_pow_multiplies(a, e, 2);
        lemma_square_roots_of_one(n, y);
        if y == 1 {
            lemma_descent(n, a, d, k);
            if pow(a, d) % ni != 1 {
                let t = choose|t: nat| t < k && pow(a, d * #[trigger] pow2(t)) % ni == n - 1;
                assert(t < r && pow(a, d * pow2(t)) % ni == n - 1);
            }
        } else {
            assert(k < r && pow(a, d * pow2(k)) % ni == n - 1);
        }
    }
}

/// A prime is a strong probable prime to every base that it does not divide.
pub proof fn lemma_prime_is_strong_probable_prime(n: nat, a: nat)
    requires
        is_prime_number(n),
        a % n != 0,
    ensures
        is_strong_probable_prime(n, a),
{
    let v = (n - 1) as nat;
    let s = two_adicity(v);
    let d = v / pow2(s);
    lemma_two_adicity_divides(v);
    lemma_fermat_little(a as int, n);
    lemma_descent(n, a as int, d, s);
}

/// The trial division finds no divisor of a prime but the prime itself.
proof fn lemma_prime_small_divisor(n: nat, from: nat)
    requires
        is_prime_number(n),
        2 <= from,
    ensures
        first_small_divisor(n, from) == if from <= n < TRIAL_DIVISION_LIMIT {
            n
        } else {
            TRIAL_DIVISION_LIMIT as nat
        },
    decreases TRIAL_DIVISION_LIMIT - from,
{
    if from < TRIAL_DIVISION_LIMIT {
        if n % from == 0 {
            if from < n {
                assert(!divides(from, n));
            } else if from > n {
                lemma_small_mod(n, from);
            }
        } else {
            if from == n {
                vstd::arithmetic::div_mod::lemma_mod_self_0(n as int);
            }
            lemma_prime_small_divisor(n, from + 1);
        }
    }
}

/// The primality test never rejects a prime, whatever the generator yields.
pub proof fn lemma_prime_passes_primality_test(n: nat, seed: Seq<u8>, counter: u64)
    requires
        is_prime_number(n),
    ensures
        is_probable_prime(n, seed, counter),
{
    lemma_prime_small_divisor(n, 2);
    if n >= TRIAL_DIVISION_LIMIT {
        assert forall|round: nat| round < MILLER_RABIN_ROUNDS implies is_strong_probable_prime(
            n,
            #[trigger] miller_rabin_base(seed, counter, n, round),
        ) by {
            let base = miller_rabin_base(seed, counter, n, round);
            let range = (n - 3) as nat;
            let drawn = drawn_below(seed, counter_after(counter, round), range);
            lemma_mod_bound(
                crate::big_endian::nat_of_be(
                    crate::csprng::drawn_bytes(
                        seed,
                        counter_after(counter, round),
                        crate::csprng::draw_length(range),
                    ),
                ) as int,
                range as int,
            );
            assert(2 <= base <= n - 2);
            lemma_small_mod(base, n);
            lemma_prime_is_strong_probable_prime(n, base);
        }
    }
}

/// The trial division finds a divisor that is at most any divisor below its limit.
proof fn lemma_small_divisor_found(n: nat, from: nat, d: nat)
    requires
        2 <= from <= d < TRIAL_DIVISION_LIMIT,
        divides(d, n),
    ensures
        from <= first_small_divisor(n, from) <= d,
        divides(first_small_divisor(n, from), n),
    decreases d - from,
{
    if n % from != 0 {
        lemma_small_divisor_found(n, from + 1, d);
    }
}

/// A number below the square of the limit of the trial division passes the primality
/// test if and only if it is prime, whatever the generator yields.
pub proof fn lemma_small_numbers_are_judged_exactly(n: nat, seed: Seq<u8>, counter: u64)
    requires
        n < TRIAL_DIVISION_LIMIT * TRIAL_DIVISION_LIMIT,
    ensures
        is_probable_prime(n, seed, counter) <==> is_prime_number(n),
{
    if is_prime_number(n) {
        lemma_prime_passes_primality_test(n, seed, counter);
    } else if n >= 2 {
        // n = d * e with d and e above 1, and the smaller of them is below the limit
        let d = choose|d: nat| 1 < d < n && #[trigger] divides(d, n);
        let e = n / d;
        vstd::arithmetic::div_mod::lemma_fundamental_div_mod(n as int, d as int);
        assert(n == d * e);
        assert(1 < e < n && (d < TRIAL_DIVISION_LIMIT || e < TRIAL_DIVISION_LIMIT))
            by (nonlinear_arith)
            requires
                n == d * e,
                1 < d < n,
                n < 256 * 256,
                TRIAL_DIVISION_LIMIT == 256,
        ;
        assert(n == e * d) by (nonlinear_arith)
            requires
                n == d * e,
        ;
        vstd::arithmetic::div_mod::lemma_mod_multiples_basic(d as int, e as int);
        assert(divides(e, n));
        let small = if d < TRIAL_DIVISION_LIMIT {
            d
        } else {
            e
        };
        lemma_small_divisor_found(n, 2, small);
    }
}

/// With a prime `p` and a prime `q`, the validation of the parameters goes by the
/// relations between them alone, whatever the generator yields: it never reports a
/// prime as not prime.
pub proof fn lemma_validation_with_primes(
    fixed_parameters: FixedParameters,
    seed: Seq<u8>,
    counter: u64,
)
    requires
        is_prime_number(fixed_parameters.p@),
        is_prime_number(fixed_parameters.q@),
    ensures
        fixed_parameters.validation_outcome(seed, counter) == fixed_parameters.validation_result(
            true,
            true,
        ),
        fixed_parameters.validation_outcome(seed, counter) is Ok
            <==> fixed_parameters.relations_hold(),
{
    lemma_prime_passes_primality_test(fixed_parameters.p@, seed, counter);
    lemma_prime_passes_primality_test(
        fixed_parameters.q@,
        seed,
        counter_after(counter, fixed_parameters.modulus_draws()),
    );
}

} // verus!
