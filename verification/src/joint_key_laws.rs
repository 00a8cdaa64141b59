//! What holds of the aggregation of guardian public keys, whatever the keys.

use vstd::prelude::*;
use vstd::arithmetic::div_mod::{lemma_mul_mod_noop, lemma_mul_mod_noop_left, lemma_small_mod};
use vstd::arithmetic::power::{lemma_pow_distributes, lemma_pow_mod_noop, pow};
use crate::artifact_text::{lemma_quoted_hex_round_trip, quoted_hex_line};
use crate::election_parameters::ElectionParameters;
use crate::errors::CodecError;
use crate::guardian_public_key::{lemma_valid_key, GuardianPublicKey};
use crate::joint_election_public_key::{
    aggregation_outcome, first_duplicate, first_invalid_key, is_present, joint_product,
    lemma_first_duplicate, lemma_first_invalid_key, missing_indices, occurs_before,
    AggregationOutcome, JointElectionPublicKey,
};

verus! {

/// The product of the contributions of the first `count` keys.
pub open spec fn contribution_product(keys: Seq<GuardianPublicKey>, count: nat) -> nat
    decreases count,
{
    if count == 0 {
        1
    } else {
        contribution_product(keys, (count - 1) as nat) * keys[count - 1].k0()
    }
}

/// Every key of `keys` passes its validation.
pub open spec fn all_valid(election_parameters: ElectionParameters, keys: Seq<GuardianPublicKey>)
    -> bool {
    forall|m: int| 0 <= m < keys.len() ==> (#[trigger] keys[m]).is_valid(election_parameters)
}

/// No two keys of `keys` have the same guardian number.
pub open spec fn distinct_indices(keys: Seq<GuardianPublicKey>) -> bool {
    forall|a: int, b: int|
        0 <= a < b < keys.len() ==> (#[trigger] keys[a]).i != (#[trigger] keys[b]).i
}

/// Every guardian number from 1 to `n` is that of some key.
pub open spec fn all_present(keys: Seq<GuardianPublicKey>, n: nat) -> bool {
    forall|i: int| 1 <= i <= n ==> is_present(keys, i)
}

proof fn lemma_all_valid_first_invalid(
    election_parameters: ElectionParameters,
    keys: Seq<GuardianPublicKey>,
    from: int,
)
    requires
        all_valid(election_parameters, keys),
        0 <= from <= keys.len(),
    ensures
        first_invalid_key(election_parameters, keys, from) == keys.len(),
    decreases keys.len() - from,
{
    if from < keys.len() {
        assert(keys[from].is_valid(election_parameters));
        lemma_all_valid_first_invalid(election_parameters, keys, from + 1);
    }
}

proof fn lemma_distinct_first_duplicate(keys: Seq<GuardianPublicKey>, from: int)
    requires
        distinct_indices(keys),
        0 <= from <= keys.len(),
    ensures
        first_duplicate(keys, from) == keys.len(),
    decreases keys.len() - from,
{
    if from < keys.len() {
        if occurs_before(keys, from) {
            let m = choose|m: int| 0 <= m < from && (#[trigger] keys[m]).i == keys[from].i;
            assert(keys[m].i != keys[from].i);
        }
        lemma_distinct_first_duplicate(keys, from + 1);
    }
}

proof fn lemma_missing_indices_members(keys: Seq<GuardianPublicKey>, upto: nat, x: u16)
    requires
        upto <= u16::MAX,
    ensures
        missing_indices(keys, upto).contains(x) <==> (1 <= x <= upto && !is_present(keys, x as int)),
    decreases upto,
{
    if upto > 0 {
        let rest = missing_indices(keys, (upto - 1) as nat);
        lemma_missing_indices_members(keys, (upto - 1) as nat, x);
        if !is_present(keys, upto as int) {
            let all = rest.push(upto as u16);
            assert(all[rest.len() as int] == upto as u16);
            if rest.contains(x) {
                let j = choose|j: int| 0 <= j < rest.len() && rest[j] == x;
                assert(all[j] == x);
            }
            if all.contains(x) {
                let j = choose|j: int| 0 <= j < all.len() && all[j] == x;
                if j < rest.len() {
                    assert(rest[j] == x);
                }
            }
        }
    }
}

proof fn lemma_all_present_nothing_missing(keys: Seq<GuardianPublicKey>, upto: nat)
    requires
        forall|i: int| 1 <= i <= upto ==> is_present(keys, i),
    ensures
        missing_indices(keys, upto).len() == 0,
    decreases upto,
{
    if upto > 0 {
        assert(is_present(keys, upto as int));
        lemma_all_present_nothing_missing(keys, (upto - 1) as nat);
    }
}

/// The aggregation yields a joint key exactly for a complete set of valid keys: every key
/// passes its validation, no guardian number occurs twice, and every number from 1 to
/// `n` occurs.
pub proof fn lemma_joint_key_iff_complete(
    election_parameters: ElectionParameters,
    keys: Seq<GuardianPublicKey>,
)
    ensures
        aggregation_outcome(election_parameters, keys) is JointKey <==> (all_valid(
            election_parameters,
            keys,
        ) && distinct_indices(keys) && all_present(
            keys,
            election_parameters.varying_parameters.n as nat,
        )),
{
    let n = election_parameters.varying_parameters.n as nat;
    if aggregation_outcome(election_parameters, keys) is JointKey {
        assert forall|m: int| 0 <= m < keys.len() implies (#[trigger] keys[m]).is_valid(
            election_parameters,
        ) by {
            lemma_first_invalid_key(election_parameters, keys, 0, m);
        }
        assert forall|a: int, b: int| 0 <= a < b < keys.len() implies (#[trigger] keys[a]).i != (
        #[trigger] keys[b]).i by {
            lemma_first_duplicate(keys, 0, b);
            if keys[a].i == keys[b].i {
                assert(occurs_before(keys, b));
            }
        }
        assert forall|i: int| 1 <= i <= n implies is_present(keys, i) by {
            lemma_missing_indices_members(keys, n, i as u16);
            if !is_present(keys, i) {
                assert(missing_indices(keys, n).contains(i as u16));
            }
        }
    }
    if all_valid(election_parameters, keys) && distinct_indices(keys) && all_present(keys, n) {
        lemma_all_valid_first_invalid(election_parameters, keys, 0);
        lemma_distinct_first_duplicate(keys, 0);
        lemma_all_present_nothing_missing(keys, n);
    }
}

proof fn lemma_product_prefix(s1: Seq<GuardianPublicKey>, s2: Seq<GuardianPublicKey>, count: nat)
    requires
        count <= s1.len(),
        count <= s2.len(),
        forall|m: int| 0 <= m < count ==> s1[m] == s2[m],
    ensures
        contribution_product(s1, count) == contribution_product(s2, count),
    decreases count,
{
    if count > 0 {
        lemma_product_prefix(s1, s2, (count - 1) as nat);
    }
}

proof fn lemma_product_remove(s: Seq<GuardianPublicKey>, j: int)
    requires
        0 <= j < s.len(),
    ensures
        contribution_product(s, s.len()) == contribution_product(
            s.remove(j),
            (s.len() - 1) as nat,
        ) * s[j].k0(),
    decreases s.len(),
{
    let n = s.len();
    let t = s.drop_last();
    let r = s.remove(j);
    lemma_product_prefix(s, t, (n - 1) as nat);
    if j == n - 1 {
        assert(r =~= t);
    } else {
        lemma_product_remove(t, j);
        assert(r.drop_last() =~= t.remove(j));
        lemma_product_prefix(r, t.remove(j), (n - 2) as nat);
        assert(r[n - 2] == s[n - 1]);
        let a = contribution_product(t.remove(j), (n - 2) as nat);
        let x = s[j].k0();
        let y = s[n - 1].k0();
        assert(t[j] == s[j]);
        assert(contribution_product(r, (n - 1) as nat) == a * y);
        assert(contribution_product(s, n) == (a * x) * y);
        assert((a * x) * y == (a * y) * x) by (nonlinear_arith);
    }
}

/// The product of the contributions does not depend on the order of the keys.
pub proof fn lemma_product_permutation(s1: Seq<GuardianPublicKey>, s2: Seq<GuardianPublicKey>)
    requires
        s1.to_multiset() == s2.to_multiset(),
    ensures
        s1.len() == s2.len(),
        contribution_product(s1, s1.len()) == contribution_product(s2, s2.len()),
    decreases s1.len(),
{
    s1.to_multiset_ensures();
    s2.to_multiset_ensures();
    if s1.len() > 0 {
        let last = s1.last();
        assert(s1.contains(last));
        assert(s1.to_multiset().count(last) > 0);
        assert(s2.to_multiset().count(last) > 0);
        assert(s2.contains(last));
        let j = choose|j: int| 0 <= j < s2.len() && s2[j] == last;
        let t1 = s1.drop_last();
        let t2 = s2.remove(j);
        assert(t1 =~= s1.remove(s1.len() - 1));
        assert(t1.to_multiset() =~= t2.to_multiset());
        lemma_product_permutation(t1, t2);
        lemma_product_remove(s2, j);
        lemma_product_prefix(s1, t1, (s1.len() - 1) as nat);
    }
}

/// The joint key of one or more keys is the product of all their contributions, reduced
/// mod `p`.
pub proof fn lemma_joint_product_is_product_mod(
    keys: Seq<GuardianPublicKey>,
    p: nat,
    count: nat,
)
    requires
        p > 0,
        1 <= count <= keys.len(),
    ensures
        joint_product(keys, p, count) == contribution_product(keys, count) % p,
    decreases count,
{
    let k = keys[count - 1].k0();
    if count == 1 {
        assert(joint_product(keys, p, 0) == 1);
        assert(contribution_product(keys, 0) == 1);
    } else {
        lemma_joint_product_is_product_mod(keys, p, (count - 1) as nat);
        let a = contribution_product(keys, (count - 1) as nat);
        lemma_mul_mod_noop_left(a as int, k as int, p as int);
    }
}

proof fn lemma_permutation_contains(
    s1: Seq<GuardianPublicKey>,
    s2: Seq<GuardianPublicKey>,
    m: int,
) -> (m2: int)
    requires
        s1.to_multiset() == s2.to_multiset(),
        0 <= m < s1.len(),
    ensures
        0 <= m2 < s2.len(),
        s2[m2] == s1[m],
{
    s1.to_multiset_ensures();
    s2.to_multiset_ensures();
    assert(s1.contains(s1[m]));
    assert(s1.to_multiset().count(s1[m]) > 0);
    assert(s2.to_multiset().count(s1[m]) > 0);
    assert(s2.contains(s1[m]));
    choose|j: int| 0 <= j < s2.len() && s2[j] == s1[m]
}

/// Two positions of `s2` that hold keys of the same guardian number lead to two
/// positions of `s1` that do.
proof fn lemma_permutation_duplicate(
    s1: Seq<GuardianPublicKey>,
    s2: Seq<GuardianPublicKey>,
    a: int,
    b: int,
)
    requires
        s1.to_multiset() == s2.to_multiset(),
        0 <= a < b < s2.len(),
        s2[a].i == s2[b].i,
    ensures
        !distinct_indices(s1),
{
    s1.to_multiset_ensures();
    s2.to_multiset_ensures();
    let a1 = lemma_permutation_contains(s2, s1, a);
    if s2[a] == s2[b] {
        // the same key twice: remove one occurrence on both sides
        let t1 = s1.remove(a1);
        let t2 = s2.remove(a);
        assert(t1.to_multiset() =~= t2.to_multiset());
        assert(t2[b - 1] == s2[b]);
        let c = lemma_permutation_contains(t2, t1, b - 1);
        let c1 = if c < a1 { c } else { c + 1 };
        assert(s1[c1] == t1[c]);
        assert(s1[c1].i == s1[a1].i && c1 != a1);
        if c1 < a1 {
            assert(s1[c1].i == s1[a1].i);
        } else {
            assert(s1[a1].i == s1[c1].i);
        }
    } else {
        let b1 = lemma_permutation_contains(s2, s1, b);
        assert(a1 != b1);
        if a1 < b1 {
            assert(s1[a1].i == s1[b1].i);
        } else {
            assert(s1[b1].i == s1[a1].i);
        }
    }
}

/// Order independence: for a complete set of valid keys, the aggregation of any
/// rearrangement of the keys yields the identical joint key.
pub proof fn lemma_aggregation_order_independent(
    election_parameters: ElectionParameters,
    keys: Seq<GuardianPublicKey>,
    rearranged: Seq<GuardianPublicKey>,
)
    requires
        keys.to_multiset() == rearranged.to_multiset(),
        aggregation_outcome(election_parameters, keys) is JointKey,
    ensures
        aggregation_outcome(election_parameters, rearranged) == aggregation_outcome(
            election_parameters,
            keys,
        ),
{
    let n = election_parameters.varying_parameters.n as nat;
    let p = election_parameters.fixed_parameters.p@;
    lemma_joint_key_iff_complete(election_parameters, keys);
    assert forall|m: int| 0 <= m < rearranged.len() implies (#[trigger] rearranged[m]).is_valid(
        election_parameters,
    ) by {
        let m1 = lemma_permutation_contains(rearranged, keys, m);
        assert(keys[m1].is_valid(election_parameters));
    }
    assert forall|a: int, b: int| 0 <= a < b < rearranged.len() implies (
    #[trigger] rearranged[a]).i != (#[trigger] rearranged[b]).i by {
        if rearranged[a].i == rearranged[b].i {
            lemma_permutation_duplicate(keys, rearranged, a, b);
        }
    }
    assert forall|i: int| 1 <= i <= n implies is_present(rearranged, i) by {
        assert(is_present(keys, i));
        let m = choose|m: int| 0 <= m < keys.len() && (#[trigger] keys[m]).i == i;
        let m2 = lemma_permutation_contains(keys, rearranged, m);
        assert(rearranged[m2].i == i);
    }
    lemma_joint_key_iff_complete(election_parameters, rearranged);
    lemma_product_permutation(keys, rearranged);
    if keys.len() > 0 {
        assert(keys[0].is_valid(election_parameters));
        lemma_valid_key(election_parameters, keys[0]);
        assert(p > 0);
        lemma_joint_product_is_product_mod(keys, p, keys.len());
        lemma_joint_product_is_product_mod(rearranged, p, rearranged.len());
    }
}

proof fn lemma_missing_after_removal(
    keys: Seq<GuardianPublicKey>,
    removed: u16,
    upto: nat,
)
    requires
        1 <= removed,
        forall|i: int| 1 <= i <= upto ==> (is_present(keys, i) <==> i != removed),
    ensures
        missing_indices(keys, upto) == if upto >= removed {
            seq![removed]
        } else {
            Seq::<u16>::empty()
        },
    decreases upto,
{
    if upto > 0 {
        lemma_missing_after_removal(keys, removed, (upto - 1) as nat);
        if upto == removed {
            assert(!is_present(keys, upto as int));
            assert(Seq::<u16>::empty().push(removed) =~= seq![removed]);
        } else {
            assert(is_present(keys, upto as int));
        }
    }
}

/// Completeness: without one key of a complete set of valid keys, the aggregation fails
/// and names exactly the guardian number of that key as missing.
pub proof fn lemma_removed_key_is_missing(
    election_parameters: ElectionParameters,
    keys: Seq<GuardianPublicKey>,
    position: int,
)
    requires
        aggregation_outcome(election_parameters, keys) is JointKey,
        0 <= position < keys.len(),
    ensures
        aggregation_outcome(election_parameters, keys.remove(position))
            == (AggregationOutcome::MissingIndices { missing: seq![keys[position].i] }),
{
    let n = election_parameters.varying_parameters.n as nat;
    let rest = keys.remove(position);
    let removed = keys[position].i;
    lemma_joint_key_iff_complete(election_parameters, keys);
    assert(keys[position].is_valid(election_parameters));
    lemma_valid_key(election_parameters, keys[position]);
    assert forall|m: int| 0 <= m < rest.len() implies (#[trigger] rest[m]).is_valid(
        election_parameters,
    ) by {
        let m0 = if m < position { m } else { m + 1 };
        assert(rest[m] == keys[m0]);
        assert(keys[m0].is_valid(election_parameters));
    }
    assert forall|a: int, b: int| 0 <= a < b < rest.len() implies (#[trigger] rest[a]).i != (
    #[trigger] rest[b]).i by {
        let a0 = if a < position { a } else { a + 1 };
        let b0 = if b < position { b } else { b + 1 };
        assert(rest[a] == keys[a0] && rest[b] == keys[b0]);
        assert(keys[a0].i != keys[b0].i);
    }
    assert forall|i: int| 1 <= i <= n implies (is_present(rest, i) <==> i != removed) by {
        if is_present(rest, i) {
            let m = choose|m: int| 0 <= m < rest.len() && (#[trigger] rest[m]).i == i;
            let m0 = if m < position { m } else { m + 1 };
            assert(rest[m] == keys[m0]);
            if m0 < position {
                assert(keys[m0].i != keys[position].i);
            } else {
                assert(keys[position].i != keys[m0].i);
            }
        }
        if i != removed {
            assert(is_present(keys, i));
            let m0 = choose|m: int| 0 <= m < keys.len() && (#[trigger] keys[m]).i == i;
            let m = if m0 < position { m0 } else { m0 - 1 };
            assert(rest[m] == keys[m0]);
            assert(rest[m].i == i);
        }
    }
    lemma_all_valid_first_invalid(election_parameters, rest, 0);
    lemma_distinct_first_duplicate(rest, 0);
    lemma_missing_after_removal(rest, removed, n);
}

proof fn lemma_first_duplicate_found(keys: Seq<GuardianPublicKey>, from: int, position: int)
    requires
        0 <= from <= position < keys.len(),
        occurs_before(keys, position),
    ensures
        from <= first_duplicate(keys, from) <= position,
        occurs_before(keys, first_duplicate(keys, from)),
    decreases keys.len() - from,
{
    if !occurs_before(keys, from) {
        lemma_first_duplicate_found(keys, from + 1, position);
    }
}

/// Completeness: where every key passes its validation and guardian number `i`, and no
/// other, is supplied more than once, the aggregation fails and names `i` as the
/// duplicate, whether or not the other guardians are all represented.
pub proof fn lemma_duplicate_is_reported(
    election_parameters: ElectionParameters,
    keys: Seq<GuardianPublicKey>,
    i: u16,
)
    requires
        all_valid(election_parameters, keys),
        exists|a: int, b: int|
            0 <= a < b < keys.len() && (#[trigger] keys[a]).i == i && (#[trigger] keys[b]).i == i,
        forall|a: int, b: int|
            0 <= a < b < keys.len() && (#[trigger] keys[a]).i == (#[trigger] keys[b]).i
                ==> keys[a].i == i,
    ensures
        aggregation_outcome(election_parameters, keys) == (AggregationOutcome::DuplicateIndex {
            i,
        }),
{
    lemma_all_valid_first_invalid(election_parameters, keys, 0);
    let (a, b) = choose|a: int, b: int|
        0 <= a < b < keys.len() && (#[trigger] keys[a]).i == i && (#[trigger] keys[b]).i == i;
    assert(occurs_before(keys, b));
    lemma_first_duplicate_found(keys, 0, b);
    let d = first_duplicate(keys, 0);
    let m = choose|m: int| 0 <= m < d && (#[trigger] keys[m]).i == keys[d].i;
    assert(keys[m].i == keys[d].i);
}

proof fn lemma_joint_product_member(
    election_parameters: ElectionParameters,
    keys: Seq<GuardianPublicKey>,
    count: nat,
)
    requires
        all_valid(election_parameters, keys),
        1 <= count <= keys.len(),
    ensures
        election_parameters.fixed_parameters.in_subgroup(
            joint_product(keys, election_parameters.fixed_parameters.p@, count),
        ),
    decreases count,
{
    let p = election_parameters.fixed_parameters.p@;
    let q = election_parameters.fixed_parameters.q@;
    let key = keys[count - 1];
    assert(key.is_valid(election_parameters));
    lemma_valid_key(election_parameters, key);
    let k = key.k0();
    assert(election_parameters.fixed_parameters.in_subgroup(key.coefficient_commitments@[0]@));
    if count == 1 {
        assert(joint_product(keys, p, 0) == 1);
        assert(1 * k == k) by (nonlinear_arith);
        lemma_small_mod(k, p);
    } else {
        lemma_joint_product_member(election_parameters, keys, (count - 1) as nat);
        let a = joint_product(keys, p, (count - 1) as nat);
        let pi = p as int;
        let ak = (a as int) * (k as int);
        let x = pow(a as int, q);
        let y = pow(k as int, q);
        assert(x % pi == 1 && y % pi == 1);
        vstd::arithmetic::div_mod::lemma_mod_bound(x, pi);
        lemma_small_mod(1, p);
        lemma_pow_mod_noop(ak, q, pi);
        lemma_pow_distributes(a as int, k as int, q);
        lemma_mul_mod_noop(x, y, pi);
        assert((x % pi) * (y % pi) == 1) by (nonlinear_arith)
            requires
                x % pi == 1,
                y % pi == 1,
        ;
        assert(pow(ak, q) % pi == 1);
        assert(((a * k) % p) as int == ak % pi);
        vstd::arithmetic::div_mod::lemma_mod_bound(ak, pi);
    }
}

/// Closure: the joint key of at least one guardian is itself a member of the subgroup of
/// order `q`, as every contribution is.
pub proof fn lemma_joint_key_in_subgroup(
    election_parameters: ElectionParameters,
    keys: Seq<GuardianPublicKey>,
)
    requires
        aggregation_outcome(election_parameters, keys) is JointKey,
        election_parameters.varying_parameters.n >= 1,
    ensures
        election_parameters.fixed_parameters.in_subgroup(
            aggregation_outcome(election_parameters, keys)->value,
        ),
{
    lemma_joint_key_iff_complete(election_parameters, keys);
    assert(is_present(keys, 1));
    lemma_joint_product_member(election_parameters, keys, keys.len());
}

/// Round trip: the text that is written for a valid joint key is read as that key, and
/// the text of a value that is no member of the subgroup is rejected.
pub proof fn lemma_joint_key_text_round_trip(election_parameters: ElectionParameters, v: nat)
    ensures
        election_parameters.fixed_parameters.in_subgroup(v)
            ==> JointElectionPublicKey::reading_result(quoted_hex_line(v), election_parameters)
            == Ok::<nat, CodecError>(v),
        !election_parameters.fixed_parameters.in_subgroup(v)
            ==> JointElectionPublicKey::reading_result(quoted_hex_line(v), election_parameters)
            is Err,
{
    lemma_quoted_hex_round_trip(v);
}

} // verus!
