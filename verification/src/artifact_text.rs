//! The text in which a big integer is stored on its own: its canonical hexadecimal
//! digits between double quotes, and a newline.

use vstd::prelude::*;
use vstd::slice::slice_subrange;
use crate::bignat::BigNat;
use crate::hex_text::{canonical_hex, hex_value, is_hex_text, lemma_canonical_hex_round_trip};

verus! {

/// The double quote, in ASCII.
pub const QUOTE: u8 = 34;

/// The newline, in ASCII.
pub const NEWLINE: u8 = 10;

/// Whether `c` is a space, a tab, a newline or a carriage return.
pub open spec fn is_whitespace(c: u8) -> bool {
    c == 32 || c == 9 || c == 10 || c == 13
}

/// The position of the first character of `text`, at or after `from`, that is no
/// whitespace; the length of `text` if there is none.
pub open spec fn skip_whitespace(text: Seq<u8>, from: int) -> int
    decreases text.len() - from,
{
    if from < 0 || from >= text.len() {
        text.len() as int
    } else if !is_whitespace(text[from]) {
        from
    } else {
        skip_whitespace(text, from + 1)
    }
}

/// The position after the last character of `text`, before `upto`, that is no
/// whitespace; zero if there is none.
pub open spec fn trim_whitespace(text: Seq<u8>, upto: int) -> int
    decreases upto,
{
    if upto <= 0 || upto > text.len() {
        0
    } else if !is_whitespace(text[upto - 1]) {
        upto
    } else {
        trim_whitespace(text, upto - 1)
    }
}

/// The text of the number `v`: a double quote, the canonical hexadecimal digits of `v`,
/// a double quote, and a newline.
pub open spec fn quoted_hex_line(v: nat) -> Seq<u8> {
    seq![QUOTE] + canonical_hex(v) + seq![QUOTE, NEWLINE]
}

/// The number that `text` is the text of: between whitespace, if any, a double quote,
/// one or more hexadecimal digits, and a double quote. `None` for every other text.
pub open spec fn quoted_hex_value(text: Seq<u8>) -> Option<nat> {
    let start = skip_whitespace(text, 0);
    let end = trim_whitespace(text, text.len() as int);
    if end - start >= 2 && text[start] == QUOTE && text[end - 1] == QUOTE && is_hex_text(
        text.subrange(start + 1, end - 1),
    ) {
        Some(hex_value(text.subrange(start + 1, end - 1)))
    } else {
        None
    }
}

/// Round trip: the text of a number is read as that number.
pub proof fn lemma_quoted_hex_round_trip(v: nat)
    ensures
        quoted_hex_value(quoted_hex_line(v)) == Some(v),
{
    let digits = canonical_hex(v);
    let text = quoted_hex_line(v);
    lemma_canonical_hex_round_trip(v);
    let len = text.len() as int;
    assert(len == digits.len() + 3);
    assert(text[0] == QUOTE);
    assert(text[len - 1] == NEWLINE);
    assert(text[len - 2] == QUOTE);
    assert(skip_whitespace(text, 0) == 0);
    assert(trim_whitespace(text, len) == len - 1) by {
        reveal_with_fuel(trim_whitespace, 3);
    }
    assert(text.subrange(1, len - 2) =~= digits);
}

/// Whether `c` is a space, a tab, a newline or a carriage return.
fn is_whitespace_byte(c: u8) -> (res: bool)
    ensures
        res == is_whitespace(c),
{
    c == 32 || c == 9 || c == 10 || c == 13
}

/// Writes the text of the number `v`.
pub fn write_quoted_hex(v: &BigNat) -> (res: Vec<u8>)
    ensures
        res@ == quoted_hex_line(v@),
{
    let mut res: Vec<u8> = Vec::new();
    res.push(QUOTE);
    let mut digits = v.to_hex();
    res.append(&mut digits);
    res.push(QUOTE);
    res.push(NEWLINE);
    proof {
        assert(res@ =~= quoted_hex_line(v@));
    }
    res
}

/// Reads the number that `text` is the text of.
pub fn read_quoted_hex(text: &[u8]) -> (res: Option<BigNat>)
    ensures
        res is Some <==> quoted_hex_value(text@) is Some,
        res matches Some(v) ==> quoted_hex_value(text@) == Some(v@),
{
    let len = text.len();
    let mut start: usize = 0;
    while start < len && is_whitespace_byte(text[start])
        invariant
            start <= len,
            len == text@.len(),
            skip_whitespace(text@, 0) == skip_whitespace(text@, start as int),
        decreases len - start,
    {
        start = start + 1;
    }
    let mut end: usize = len;
    while end > 0 && is_whitespace_byte(text[end - 1])
        invariant
            end <= len,
            len == text@.len(),
            trim_whitespace(text@, len as int) == trim_whitespace(text@, end as int),
        decreases end,
    {
        end = end - 1;
    }
    if end < start || end - start < 2 {
        return None;
    }
    if text[start] != QUOTE || text[end - 1] != QUOTE {
        return None;
    }
    BigNat::from_hex(slice_subrange(text, start + 1, end - 1))
}

} // verus!
