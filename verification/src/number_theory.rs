//! Prime numbers, and why a prime always passes the primality test: Euclid's lemma,
//! Fermat's little theorem, and the square roots of 1 modulo a prime.

use vstd::prelude::*;
use vstd::arithmetic::power::pow;
use vstd::arithmetic::div_mod::{
    lemma_fundamental_div_mod, lemma_mod_bound, lemma_mod_multiples_basic,
    lemma_mul_mod_noop_left, lemma_small_mod,
};

verus! {

/// Whether `d` divides `n`.
pub open spec fn divides(d: nat, n: nat) -> bool {
    d > 0 && n % d == 0
}

/// Whether `n` is a prime number: at least 2, and divisible by no number between 1 and
/// itself.
pub open spec fn is_prime_number(n: nat) -> bool {
    n >= 2 && forall|d: nat| 1 < d < n ==> !#[trigger] divides(d, n)
}

/// A multiple of `m` plus a multiple of `m` is a multiple of `m`.
proof fn lemma_multiple_sum(x: int, y: int, k: int, m: int)
    requires
        m > 0,
        x % m == 0,
        y % m == 0,
    ensures
        (x * k + y) % m == 0,
{
    lemma_fundamental_div_mod(x, m);
    lemma_fundamental_div_mod(y, m);
    let q = (x / m) * k + y / m;
    assert(x * k + y == q * m) by (nonlinear_arith)
        requires
            x == m * (x / m),
            y == m * (y / m),
            q == (x / m) * k + y / m,
    ;
    lemma_mod_multiples_basic(q, m);
}

/// Bezout's identity: some common divisor `g` of `a` and `b` is `s * a + t * b` for
/// whole numbers `s` and `t`.
proof fn lemma_bezout(a: nat, b: nat) -> (r: (int, int, int))
    requires
        a > 0 || b > 0,
    ensures
        r.2 > 0,
        r.2 == r.0 * a + r.1 * b,
        a as int % r.2 == 0,
        b as int % r.2 == 0,
    decreases b,
{
    if b == 0 {
        assert(1 * a + 0 * b == a) by (nonlinear_arith);
        vstd::arithmetic::div_mod::lemma_mod_self_0(a as int);
        lemma_small_mod(0, a);
        (1, 0, a as int)
    } else {
        let rest = a % b;
        lemma_mod_bound(a as int, b as int);
        let (s, t, g) = lemma_bezout(b, rest);
        lemma_fundamental_div_mod(a as int, b as int);
        let k = a as int / b as int;
        lemma_multiple_sum(b as int, rest as int, k, g);
        assert(b * k + rest == a) by (nonlinear_arith)
            requires
                a == b * k + rest,
        ;
        assert(g == t * a + (s - t * k) * b) by (nonlinear_arith)
            requires
                g == s * b + t * rest,
                a == b * k + rest,
        ;
        (t, s - t * k, g)
    }
}

/// Euclid's lemma: a prime that divides a product divides one of the factors.
pub proof fn lemma_prime_divides_product(p: nat, x: int, y: int)
    requires
        is_prime_number(p),
        (x * y) % (p as int) == 0,
    ensures
        x % (p as int) == 0 || y % (p as int) == 0,
{
    let pi = p as int;
    let x0 = x % pi;
    lemma_mod_bound(x, pi);
    if x0 != 0 {
        let (s, t, g) = lemma_bezout(x0 as nat, p);
        // g divides the prime p, and x0, which is below p: so g is 1
        if g > x0 {
            lemma_small_mod(x0 as nat, g as nat);
        }
        assert(g <= x0);
        if g > 1 {
            assert(!divides(g as nat, p));
        }
        assert(g == 1);
        // y = s * (x0 * y) + (t * y) * p, and p divides x0 * y
        lemma_mul_mod_noop_left(x, y, pi);
        assert((x0 * y) % pi == 0);
        lemma_mod_multiples_basic(t * y, pi);
        lemma_multiple_sum(x0 * y, (t * y) * pi, s, pi);
        assert((x0 * y) * s + (t * y) * pi == y) by (nonlinear_arith)
            requires
                1 == s * x0 + t * pi,
        ;
    }
}

/// The product of the numbers of `s`; 1 for none.
pub open spec fn seq_product(s: Seq<int>) -> int
    decreases s.len(),
{
    if s.len() == 0 {
        1
    } else {
        seq_product(s.drop_last()) * s.last()
    }
}

proof fn lemma_seq_product_remove(s: Seq<int>, j: int)
    requires
        0 <= j < s.len(),
    ensures
        seq_product(s) == seq_product(s.remove(j)) * s[j],
    decreases s.len(),
{
    let t = s.drop_last();
    let r = s.remove(j);
    if j == s.len() - 1 {
        assert(r =~= t);
    } else {
        lemma_seq_product_remove(t, j);
        assert(r.drop_last() =~= t.remove(j));
        assert(r.last() == s.last());
        let a = seq_product(t.remove(j));
        let x = s[j];
        let y = s.last();
        assert(t[j] == x);
        assert((a * x) * y == (a * y) * x) by (nonlinear_arith);
    }
}

/// The product does not depend on the order of the numbers.
proof fn lemma_seq_product_permutation(s1: Seq<int>, s2: Seq<int>)
    requires
        s1.to_multiset() == s2.to_multiset(),
    ensures
        seq_product(s1) == seq_product(s2),
    decreases s1.len(),
{
    s1.to_multiset_ensures();
    s2.to_multiset_ensures();
    if s1.len() == 0 {
        assert(s2.len() == 0);
    } else {
        let last = s1.last();
        assert(s1.contains(last));
        assert(s1.to_multiset().count(last) > 0);
        assert(s2.to_multiset().count(last) > 0);
        assert(s2.contains(last));
        let j = choose|j: int| 0 <= j < s2.len() && s2[j] == last;
        let t1 = s1.drop_last();
        let t2 = s2.remove(j);
        assert(t1 =~= s1.remove(s1.len() - 1));
        assert(t1.to_multiset() =~= t2.to_multiset());
        lemma_seq_product_permutation(t1, t2);
        lemma_seq_product_remove(s2, j);
    }
}

/// The numbers from 1 to `m`.
pub open spec fn first_numbers(m: nat) -> Seq<int> {
    Seq::new(m, |i: int| i + 1)
}

/// The residues mod `p` of the first `m` multiples of `a`.
pub open spec fn multiples(a: int, p: int, m: nat) -> Seq<int> {
    Seq::new(m, |i: int| (a * (i + 1)) % p)
}

/// The product of the residues of the first `m` multiples of `a` is congruent to
/// `a^m * m!`.
proof fn lemma_product_of_multiples(a: int, p: int, m: nat)
    requires
        p > 0,
    ensures
        seq_product(multiples(a, p, m)) % p == (pow(a, m) * seq_product(first_numbers(m))) % p,
    decreases m,
{
    if m == 0 {
        vstd::arithmetic::power::lemma_pow0(a);
        assert(1int * 1int == 1int);
    } else {
        let k = (m - 1) as nat;
        lemma_product_of_multiples(a, p, k);
        assert(multiples(a, p, m).drop_last() =~= multiples(a, p, k));
        assert(first_numbers(m).drop_last() =~= first_numbers(k));
        let f = seq_product(multiples(a, p, k));
        let n = seq_product(first_numbers(k));
        let e = pow(a, k);
        let mi = m as int;
        assert(multiples(a, p, m).last() == (a * mi) % p);
        assert(first_numbers(m).last() == mi);
        vstd::arithmetic::power::lemma_pow_adds(a, k, 1);
        vstd::arithmetic::power::lemma_pow1(a);
        // f * ((a m) mod p) = f * (a m) = (f mod p) * (a m) = (e n mod p) * (a m) = e n a m
        vstd::arithmetic::div_mod::lemma_mul_mod_noop_right(f, a * mi, p);
        lemma_mul_mod_noop_left(f, a * mi, p);
        lemma_mul_mod_noop_left(e * n, a * mi, p);
        assert((e * n) * (a * mi) == (e * a) * (n * mi)) by (nonlinear_arith);
    }
}

/// The product of numbers that a prime does not divide is not divisible by it.
proof fn lemma_factorial_not_divisible(p: nat, m: nat)
    requires
        is_prime_number(p),
        m < p,
    ensures
        seq_product(first_numbers(m)) % (p as int) != 0,
    decreases m,
{
    if m == 0 {
        lemma_small_mod(1, p);
    } else {
        let k = (m - 1) as nat;
        lemma_factorial_not_divisible(p, k);
        assert(first_numbers(m).drop_last() =~= first_numbers(k));
        assert(first_numbers(m).last() == m as int);
        lemma_small_mod(m, p);
        if seq_product(first_numbers(m)) % (p as int) == 0 {
            lemma_prime_divides_product(p, seq_product(first_numbers(k)), m as int);
        }
    }
}

/// Modulo a prime `p`, the first `p - 1` multiples of a number that `p` does not divide
/// are the numbers from 1 to `p - 1`, in some order.
proof fn lemma_multiples_are_a_permutation(a: int, p: nat)
    requires
        is_prime_number(p),
        a % (p as int) != 0,
    ensures
        multiples(a, p as int, (p - 1) as nat).to_multiset() == first_numbers(
            (p - 1) as nat,
        ).to_multiset(),
{
    let pi = p as int;
    let m = (p - 1) as nat;
    let f = multiples(a, pi, m);
    let n = first_numbers(m);
    let range = vstd::set_lib::set_int_range(1, pi);
    vstd::set_lib::lemma_int_range(1, pi);
    // every residue is from 1 to p - 1
    assert forall|i: int| 0 <= i < m implies 1 <= #[trigger] f[i] < pi by {
        lemma_mod_bound(a * (i + 1), pi);
        lemma_small_mod((i + 1) as nat, p);
        if f[i] == 0 {
            lemma_prime_divides_product(p, a, i + 1);
        }
    }
    // no residue occurs twice
    assert forall|i: int, j: int| 0 <= i < f.len() && 0 <= j < f.len() && i != j implies f[i]
        != f[j] by {
        if f[i] == f[j] {
            let (lo, hi) = if i < j { (i, j) } else { (j, i) };
            vstd::arithmetic::div_mod::lemma_sub_mod_noop(a * (hi + 1), a * (lo + 1), pi);
            assert(a * (hi + 1) - a * (lo + 1) == a * (hi - lo)) by (nonlinear_arith);
            lemma_small_mod(0, p);
            assert((a * (hi - lo)) % pi == 0);
            lemma_prime_divides_product(p, a, hi - lo);
            lemma_small_mod((hi - lo) as nat, p);
        }
    }
    assert(f.no_duplicates());
    assert(n.no_duplicates());
    f.unique_seq_to_set();
    vstd::seq_lib::seq_to_set_is_finite(f);
    assert(f.to_set().subset_of(range)) by {
        assert forall|v: int| f.to_set().contains(v) implies range.contains(v) by {
            let i = choose|i: int| 0 <= i < f.len() && f[i] == v;
            assert(1 <= f[i] < pi);
        }
    }
    vstd::set_lib::lemma_subset_equality(f.to_set(), range);
    f.lemma_multiset_has_no_duplicates();
    n.lemma_multiset_has_no_duplicates();
    f.to_multiset_ensures();
    n.to_multiset_ensures();
    assert forall|v: int| f.to_multiset().count(v) == n.to_multiset().count(v) by {
        if 1 <= v < pi {
            assert(range.contains(v));
            assert(f.to_set().contains(v));
            assert(f.contains(v));
            assert(n[v - 1] == v);
            assert(n.contains(v));
            assert(f.to_multiset().contains(v));
            assert(n.to_multiset().contains(v));
        } else {
            if f.contains(v) {
                assert(f.to_set().contains(v));
            }
            if n.contains(v) {
                let i = choose|i: int| 0 <= i < n.len() && n[i] == v;
                assert(n[i] == i + 1);
            }
        }
    }
    assert(f.to_multiset() =~= n.to_multiset());
}

/// Fermat's little theorem: `a^(p-1) = 1` modulo a prime `p` that does not divide `a`.
pub proof fn lemma_fermat_little(a: int, p: nat)
    requires
        is_prime_number(p),
        a % (p as int) != 0,
    ensures
        pow(a, (p - 1) as nat) % (p as int) == 1,
{
    let pi = p as int;
    let m = (p - 1) as nat;
    let e = pow(a, m);
    let n = seq_product(first_numbers(m));
    lemma_multiples_are_a_permutation(a, p);
    lemma_seq_product_permutation(multiples(a, pi, m), first_numbers(m));
    lemma_product_of_multiples(a, pi, m);
    lemma_factorial_not_divisible(p, m);
    // n = e * n, so p divides (e - 1) * n, and not n
    vstd::arithmetic::div_mod::lemma_sub_mod_noop(e * n, n, pi);
    lemma_small_mod(0, p);
    assert(e * n - n == (e - 1) * n) by (nonlinear_arith);
    lemma_prime_divides_product(p, e - 1, n);
    assert((e - 1) % pi == 0);
    // e = (e - 1) + 1
    vstd::arithmetic::div_mod::lemma_add_mod_noop(e - 1, 1, pi);
    lemma_small_mod(1, p);
}

} // verus!
