//! Natural numbers as big-endian byte strings: the mathematical model, the measures of
//! a number (its bytes, its bits, its factors of two), and their lemmas.

use vstd::prelude::*;
use vstd::arithmetic::div_mod::{
    lemma_div_multiples_vanish, lemma_fundamental_div_mod, lemma_mod_multiples_basic,
};
use vstd::arithmetic::power2::{lemma_pow2_pos, lemma_pow2_unfold, pow2};

verus! {

/// The natural number that the byte string `s` denotes, most significant byte first.
pub open spec fn nat_of_be(s: Seq<u8>) -> nat
    decreases s.len(),
{
    if s.len() == 0 {
        0
    } else {
        nat_of_be(s.drop_last()) * 256 + s.last() as nat
    }
}

/// A byte string without a leading zero byte. Zero is the empty string.
pub open spec fn is_minimal_be(s: Seq<u8>) -> bool {
    s.len() == 0 || s[0] != 0
}

/// `256^n`.
pub open spec fn pow256(n: nat) -> nat
    decreases n,
{
    if n == 0 {
        1
    } else {
        256 * pow256((n - 1) as nat)
    }
}

/// Appending a byte multiplies by 256 and adds the byte.
pub proof fn lemma_nat_of_be_push(s: Seq<u8>, b: u8)
    ensures
        nat_of_be(s.push(b)) == nat_of_be(s) * 256 + b as nat,
{
    assert(s.push(b).drop_last() =~= s);
}

/// A single byte denotes itself.
pub proof fn lemma_nat_of_be_single(b: u8)
    ensures
        nat_of_be(seq![b]) == b as nat,
{
    reveal_with_fuel(nat_of_be, 2);
    assert(seq![b].drop_last() =~= Seq::<u8>::empty());
}

/// `pow256` is positive and multiplicative over sums of exponents.
pub proof fn lemma_pow256_adds(a: nat, b: nat)
    ensures
        pow256(a + b) == pow256(a) * pow256(b),
        pow256(a) > 0,
    decreases a,
{
    if a == 0 {
        assert(pow256(0) == 1);
    } else {
        lemma_pow256_adds((a - 1) as nat, b);
        assert(pow256(a + b) == 256 * pow256((a + b - 1) as nat));
        assert(pow256(a) == 256 * pow256((a - 1) as nat));
        assert(256 * (pow256((a - 1) as nat) * pow256(b)) == (256 * pow256((a - 1) as nat))
            * pow256(b)) by (nonlinear_arith);
        assert(pow256(a) > 0);
    }
}

/// The value of a concatenation.
pub proof fn lemma_nat_of_be_concat(a: Seq<u8>, b: Seq<u8>)
    ensures
        nat_of_be(a + b) == nat_of_be(a) * pow256(b.len()) + nat_of_be(b),
    decreases b.len(),
{
    if b.len() == 0 {
        assert(a + b =~= a);
        assert(pow256(0) == 1);
        assert(nat_of_be(b) == 0);
        assert(nat_of_be(a) * 1 == nat_of_be(a));
    } else {
        let b0 = b.drop_last();
        lemma_nat_of_be_concat(a, b0);
        assert((a + b).drop_last() =~= a + b0);
        assert((a + b).last() == b.last());
        let x = nat_of_be(a);
        let p = pow256(b0.len());
        assert(b.len() - 1 == b0.len());
        assert(pow256(b.len()) == 256 * p);
        assert((x * p + nat_of_be(b0)) * 256 == x * (256 * p) + nat_of_be(b0) * 256)
            by (nonlinear_arith);
        assert(nat_of_be(a + b) == nat_of_be(a + b0) * 256 + b.last() as nat);
        assert(nat_of_be(b) == nat_of_be(b0) * 256 + b.last() as nat);
    }
}

/// A string of zero bytes denotes zero.
pub proof fn lemma_nat_of_be_zeros(s: Seq<u8>)
    requires
        forall|i: int| 0 <= i < s.len() ==> s[i] == 0,
    ensures
        nat_of_be(s) == 0,
    decreases s.len(),
{
    if s.len() > 0 {
        lemma_nat_of_be_zeros(s.drop_last());
    }
}

/// Leading zero bytes do not change the value.
pub proof fn lemma_nat_of_be_skip_zeros(s: Seq<u8>, k: int)
    requires
        0 <= k <= s.len(),
        forall|i: int| 0 <= i < k ==> s[i] == 0,
    ensures
        nat_of_be(s) == nat_of_be(s.skip(k)),
{
    let a = s.take(k);
    let b = s.skip(k);
    assert(s =~= a + b);
    lemma_nat_of_be_concat(a, b);
    lemma_nat_of_be_zeros(a);
    assert(0 * pow256(b.len()) == 0);
}

/// A non-empty minimal byte string of length `n` denotes a number of at least `256^(n-1)`.
pub proof fn lemma_nat_of_be_lower_bound(s: Seq<u8>)
    requires
        is_minimal_be(s),
        s.len() > 0,
    ensures
        nat_of_be(s) >= pow256((s.len() - 1) as nat),
    decreases s.len(),
{
    if s.len() == 1 {
        assert(s.drop_last().len() == 0);
        assert(nat_of_be(s.drop_last()) == 0);
        assert(s.last() == s[0]);
    } else {
        assert(s.drop_last()[0] == s[0]);
        lemma_nat_of_be_lower_bound(s.drop_last());
    }
}

/// The number of bytes of the minimal big-endian form of `v`; zero for zero.
pub open spec fn byte_length(v: nat) -> nat
    decreases v,
{
    if v == 0 {
        0
    } else {
        1 + byte_length(v / 256)
    }
}

/// A minimal byte string is as long as the byte length of its value.
pub proof fn lemma_minimal_be_length(s: Seq<u8>)
    requires
        is_minimal_be(s),
    ensures
        s.len() == byte_length(nat_of_be(s)),
    decreases s.len(),
{
    if s.len() > 0 {
        lemma_nat_of_be_lower_bound(s);
        lemma_pow256_adds((s.len() - 1) as nat, 0);
        let s0 = s.drop_last();
        if s0.len() > 0 {
            assert(s0[0] == s[0]);
        }
        lemma_minimal_be_length(s0);
        assert(nat_of_be(s) / 256 == nat_of_be(s0));
    }
}

/// The big-endian form of `v` in exactly `len` bytes, padded on the left with zero bytes.
/// Where `v` needs more than `len` bytes, these are its `len` least significant bytes.
pub open spec fn be_bytes_fixed(v: nat, len: nat) -> Seq<u8>
    decreases len,
{
    if len == 0 {
        Seq::empty()
    } else {
        be_bytes_fixed(v / 256, (len - 1) as nat).push((v % 256) as u8)
    }
}

/// The fixed-length form has the length asked for.
pub proof fn lemma_be_bytes_fixed_len(v: nat, len: nat)
    ensures
        be_bytes_fixed(v, len).len() == len,
    decreases len,
{
    if len > 0 {
        lemma_be_bytes_fixed_len(v / 256, (len - 1) as nat);
    }
}

/// A byte string is the fixed-length form of the number it denotes.
pub proof fn lemma_be_bytes_fixed_of_value(s: Seq<u8>)
    ensures
        s == be_bytes_fixed(nat_of_be(s), s.len()),
    decreases s.len(),
{
    if s.len() > 0 {
        let s0 = s.drop_last();
        lemma_be_bytes_fixed_of_value(s0);
        assert(nat_of_be(s) / 256 == nat_of_be(s0));
        assert(nat_of_be(s) % 256 == s.last() as nat);
        assert(s =~= s0.push(s.last()));
    } else {
        assert(s =~= Seq::<u8>::empty());
    }
}

/// The fixed-length form of a number that fits denotes the number.
pub proof fn lemma_be_bytes_fixed_value(v: nat, len: nat)
    requires
        byte_length(v) <= len,
    ensures
        nat_of_be(be_bytes_fixed(v, len)) == v,
    decreases len,
{
    if len > 0 {
        lemma_be_bytes_fixed_value(v / 256, (len - 1) as nat);
        lemma_nat_of_be_push(be_bytes_fixed(v / 256, (len - 1) as nat), (v % 256) as u8);
    }
}

/// The number of bits of `v`: zero for zero, and otherwise the `b` with
/// `2^(b-1) <= v < 2^b`.
pub open spec fn bit_length(v: nat) -> nat
    decreases v,
{
    if v == 0 {
        0
    } else {
        1 + bit_length(v / 2)
    }
}

/// The bit length is the exponent of the least power of two above the number.
pub proof fn lemma_bit_length(v: nat, b: nat)
    requires
        b >= 1,
        pow2((b - 1) as nat) <= v < pow2(b),
    ensures
        bit_length(v) == b,
    decreases b,
{
    lemma_pow2_pos((b - 1) as nat);
    lemma_pow2_unfold(b);
    if b == 1 {
        vstd::arithmetic::power2::lemma2_to64();
        assert(v == 1);
        assert(bit_length(1) == 1 + bit_length(0));
    } else {
        lemma_pow2_unfold((b - 1) as nat);
        lemma_bit_length(v / 2, (b - 1) as nat);
    }
}

/// How often 2 divides `v`; zero for zero.
pub open spec fn two_adicity(v: nat) -> nat
    decreases v,
{
    if v == 0 || v % 2 == 1 {
        0
    } else {
        1 + two_adicity(v / 2)
    }
}

/// The number of trailing zero bits of a positive number is its two-adicity.
pub proof fn lemma_two_adicity(v: nat, t: nat)
    requires
        v > 0,
        v % pow2(t) == 0,
        (v / pow2(t)) % 2 == 1,
    ensures
        two_adicity(v) == t,
    decreases t,
{
    if t == 0 {
        vstd::arithmetic::power2::lemma2_to64();
    } else {
        let h = pow2((t - 1) as nat);
        let m = v / pow2(t);
        lemma_pow2_unfold(t);
        lemma_pow2_pos(t);
        lemma_pow2_pos((t - 1) as nat);
        lemma_fundamental_div_mod(v as int, pow2(t) as int);
        assert(v == 2 * (h * m)) by (nonlinear_arith)
            requires
                v == (2 * h) * m + 0,
        ;
        let w = h * m;
        assert(v % 2 == 0 && v / 2 == w);
        assert(w > 0);
        lemma_mod_multiples_basic(m as int, h as int);
        lemma_div_multiples_vanish(m as int, h as int);
        assert(m * h == h * m) by (nonlinear_arith);
        lemma_two_adicity(w, (t - 1) as nat);
    }
}

/// A smaller number has no more bytes.
pub proof fn lemma_byte_length_increases(a: nat, b: nat)
    requires
        a <= b,
    ensures
        byte_length(a) <= byte_length(b),
    decreases b,
{
    if a > 0 {
        lemma_byte_length_increases(a / 256, b / 256);
    }
}

/// Two minimal byte strings that denote the same number are equal.
pub proof fn lemma_minimal_be_unique(a: Seq<u8>, b: Seq<u8>)
    requires
        is_minimal_be(a),
        is_minimal_be(b),
        nat_of_be(a) == nat_of_be(b),
    ensures
        a == b,
    decreases a.len(),
{
    if a.len() == 0 {
        if b.len() > 0 {
            lemma_nat_of_be_lower_bound(b);
            lemma_pow256_adds((b.len() - 1) as nat, 0);
        }
        assert(a =~= b);
    } else if b.len() == 0 {
        lemma_nat_of_be_lower_bound(a);
        lemma_pow256_adds((a.len() - 1) as nat, 0);
    } else {
        let a0 = a.drop_last();
        let b0 = b.drop_last();
        assert(nat_of_be(a0) == nat_of_be(b0) && a.last() == b.last());
        if a0.len() > 0 {
            assert(a0[0] == a[0]);
        }
        if b0.len() > 0 {
            assert(b0[0] == b[0]);
        }
        lemma_minimal_be_unique(a0, b0);
        assert(a =~= a0.push(a.last()));
        assert(b =~= b0.push(b.last()));
    }
}

} // verus!
