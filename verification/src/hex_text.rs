//! The textual form of big integers: hexadecimal digits, two for each byte of the
//! big-endian form.

use vstd::prelude::*;
use crate::big_endian::{
    be_bytes_fixed, byte_length, lemma_be_bytes_fixed_of_value, lemma_be_bytes_fixed_value,
    lemma_nat_of_be_push, nat_of_be,
};

verus! {

/// The upper-case hexadecimal digit, in ASCII, of a number below 16.
pub open spec fn hex_digit(v: nat) -> u8 {
    if v < 10 {
        (48 + v) as u8
    } else {
        (55 + v) as u8
    }
}

/// The number that the ASCII character `c` stands for as a hexadecimal digit, in upper
/// or in lower case; `None` for every other character.
pub open spec fn hex_digit_value(c: u8) -> Option<nat> {
    if 48 <= c <= 57 {
        Some((c - 48) as nat)
    } else if 65 <= c <= 70 {
        Some((c - 55) as nat)
    } else if 97 <= c <= 102 {
        Some((c - 87) as nat)
    } else {
        None
    }
}

/// Whether `text` is one or more hexadecimal digits.
pub open spec fn is_hex_text(text: Seq<u8>) -> bool {
    text.len() > 0 && forall|j: int|
        0 <= j < text.len() ==> hex_digit_value(#[trigger] text[j]) is Some
}

/// The number that the hexadecimal digits `text` denote, most significant digit first.
pub open spec fn hex_value(text: Seq<u8>) -> nat
    decreases text.len(),
{
    if text.len() == 0 {
        0
    } else {
        hex_value(text.drop_last()) * 16 + hex_digit_value(text.last()).unwrap_or(0)
    }
}

/// The hexadecimal digits of the bytes `bytes`, two upper-case digits for each byte.
pub open spec fn hex_of_bytes(bytes: Seq<u8>) -> Seq<u8>
    decreases bytes.len(),
{
    if bytes.len() == 0 {
        Seq::empty()
    } else {
        hex_of_bytes(bytes.drop_last()).push(hex_digit(bytes.last() as nat / 16)).push(
            hex_digit(bytes.last() as nat % 16),
        )
    }
}

/// The canonical text of the number `v`: the hexadecimal digits of its big-endian bytes,
/// without leading zero bytes; `00` for zero.
pub open spec fn canonical_hex(v: nat) -> Seq<u8> {
    if v == 0 {
        seq![48u8, 48u8]
    } else {
        hex_of_bytes(be_bytes_fixed(v, byte_length(v)))
    }
}

/// The digits of bytes are hexadecimal digits, two for each byte, and denote the number
/// that the bytes denote.
pub proof fn lemma_hex_of_bytes(bytes: Seq<u8>)
    ensures
        hex_of_bytes(bytes).len() == 2 * bytes.len(),
        forall|j: int|
            0 <= j < hex_of_bytes(bytes).len() ==> hex_digit_value(
                #[trigger] hex_of_bytes(bytes)[j],
            ) is Some,
        hex_value(hex_of_bytes(bytes)) == nat_of_be(bytes),
    decreases bytes.len(),
{
    if bytes.len() > 0 {
        let rest = bytes.drop_last();
        let b = bytes.last() as nat;
        lemma_hex_of_bytes(rest);
        let one = hex_of_bytes(rest).push(hex_digit(b / 16));
        let two = one.push(hex_digit(b % 16));
        assert(hex_digit_value(hex_digit(b / 16)) == Some(b / 16));
        assert(hex_digit_value(hex_digit(b % 16)) == Some(b % 16));
        assert(two.drop_last() =~= one);
        assert(one.drop_last() =~= hex_of_bytes(rest));
        assert(hex_value(one) == hex_value(hex_of_bytes(rest)) * 16 + b / 16);
        assert(hex_value(two) == hex_value(one) * 16 + b % 16);
    }
}

/// Round trip: the canonical text of a number is hexadecimal digits that denote the
/// number.
pub proof fn lemma_canonical_hex_round_trip(v: nat)
    ensures
        is_hex_text(canonical_hex(v)),
        hex_value(canonical_hex(v)) == v,
{
    if v == 0 {
        let t = seq![48u8, 48u8];
        reveal_with_fuel(hex_value, 3);
        assert(t.drop_last() =~= seq![48u8]);
        assert(t.drop_last().drop_last() =~= Seq::<u8>::empty());
    } else {
        let bytes = be_bytes_fixed(v, byte_length(v));
        lemma_be_bytes_fixed_value(v, byte_length(v));
        crate::big_endian::lemma_be_bytes_fixed_len(v, byte_length(v));
        lemma_hex_of_bytes(bytes);
    }
}

/// The upper-case hexadecimal digit of a number below 16.
fn hex_digit_of(v: u8) -> (res: u8)
    requires
        v < 16,
    ensures
        res == hex_digit(v as nat),
{
    if v < 10 {
        48 + v
    } else {
        55 + v
    }
}

/// The value of a hexadecimal digit.
fn hex_digit_value_of(c: u8) -> (res: Option<u8>)
    ensures
        res is Some <==> hex_digit_value(c) is Some,
        res matches Some(v) ==> hex_digit_value(c) == Some(v as nat) && v < 16,
{
    if 48 <= c && c <= 57 {
        Some(c - 48)
    } else if 65 <= c && c <= 70 {
        Some(c - 55)
    } else if 97 <= c && c <= 102 {
        Some(c - 87)
    } else {
        None
    }
}

/// The hexadecimal digits of `bytes`.
pub fn encode_hex(bytes: &[u8]) -> (res: Vec<u8>)
    ensures
        res@ == hex_of_bytes(bytes@),
{
    let mut res: Vec<u8> = Vec::new();
    let mut j: usize = 0;
    while j < bytes.len()
        invariant
            j <= bytes.len(),
            res@ == hex_of_bytes(bytes@.subrange(0, j as int)),
        decreases bytes.len() - j,
    {
        let b = bytes[j];
        proof {
            assert(bytes@.subrange(0, j + 1).drop_last() =~= bytes@.subrange(0, j as int));
        }
        res.push(hex_digit_of(b / 16));
        res.push(hex_digit_of(b % 16));
        j = j + 1;
    }
    proof {
        assert(bytes@.subrange(0, bytes@.len() as int) =~= bytes@);
    }
    res
}

/// The bytes that the hexadecimal digits `text` denote, most significant first, one byte
/// for every two digits; `None` where `text` is empty or holds another character. An
/// odd number of digits is read as if a zero digit stood before them.
pub fn decode_hex(text: &[u8]) -> (res: Option<Vec<u8>>)
    ensures
        res is Some <==> is_hex_text(text@),
        res matches Some(bytes) ==> nat_of_be(bytes@) == hex_value(text@) && bytes@
            == be_bytes_fixed(hex_value(text@), (text@.len() + 1) / 2),
{
    let len = text.len();
    if len == 0 {
        return None;
    }
    let mut bytes: Vec<u8> = Vec::new();
    let mut j: usize = 0;
    if len % 2 == 1 {
        match hex_digit_value_of(text[0]) {
            Some(v) => {
                bytes.push(v);
                proof {
                    lemma_nat_of_be_push(Seq::<u8>::empty(), v);
                    assert(text@.subrange(0, 1).drop_last() =~= Seq::<u8>::empty());
                    reveal_with_fuel(hex_value, 2);
                }
            },
            None => {
                return None;
            },
        }
        j = 1;
    }
    while j < len
        invariant
            j <= len,
            len == text@.len(),
            (len - j) % 2 == 0,
            bytes@.len() == (j + 1) / 2,
            forall|m: int| 0 <= m < j ==> hex_digit_value(#[trigger] text@[m]) is Some,
            nat_of_be(bytes@) == hex_value(text@.subrange(0, j as int)),
        decreases len - j,
    {
        let high = hex_digit_value_of(text[j]);
        let low = hex_digit_value_of(text[j + 1]);
        match (high, low) {
            (Some(h), Some(l)) => {
                proof {
                    let t0 = text@.subrange(0, j as int);
                    let t1 = text@.subrange(0, j + 1);
                    let t2 = text@.subrange(0, j + 2);
                    assert(t2.drop_last() =~= t1);
                    assert(t1.drop_last() =~= t0);
                    assert(t1.last() == text@[j as int]);
                    assert(t2.last() == text@[j + 1]);
                    assert(hex_value(t1) == hex_value(t0) * 16 + h);
                    assert(hex_value(t2) == hex_value(t1) * 16 + l);
                    lemma_nat_of_be_push(bytes@, (h * 16 + l) as u8);
                }
                bytes.push(h * 16 + l);
            },
            _ => {
                return None;
            },
        }
        j = j + 2;
    }
    proof {
        assert(text@.subrange(0, len as int) =~= text@);
        lemma_be_bytes_fixed_of_value(bytes@);
    }
    Some(bytes)
}

} // verus!
