//! A deterministic generator of pseudo-random numbers, made from seed bytes.
//!
//! Every draw hashes the seed together with a counter through the extendable-output
//! function SHAKE256 and then advances the counter: what is drawn is a function of the
//! seed and of the number of draws made before.

use vstd::prelude::*;
use crate::big_endian::{be_bytes_fixed, byte_length, nat_of_be};
use crate::bignat::BigNat;

verus! {

/// The number of seed bytes beyond which a longer seed adds nothing: with the 16 bytes
/// that frame it, a seed of this length fills one block of SHAKE256, 136 bytes.
pub const RECOMMENDED_SEED_BYTES: usize = 120;

/// The first `len` bytes of the output of SHAKE256 for the message `input`.
pub uninterp spec fn shake256_xof(input: Seq<u8>, len: nat) -> Seq<u8>;

/// SHAKE256 of the `sha3` crate: absorbs `input` (`Update::update`), finishes
/// (`ExtendableOutput::finalize_xof`) and reads `len` bytes of output (`XofReader::read`,
/// which fills the whole buffer). The output is named, not described.
#[verifier::external_body]
fn shake256(input: &[u8], len: usize) -> (out: Vec<u8>)
    ensures
        out@ == shake256_xof(input@, len as nat),
        out@.len() == len,
{
    let mut hasher = sha3::Shake256::default();
    sha3::digest::Update::update(&mut hasher, input);
    let mut reader = sha3::digest::ExtendableOutput::finalize_xof(hasher);
    let mut out = vec![0u8; len];
    sha3::digest::XofReader::read(&mut reader, &mut out);
    out
}

/// The message that is hashed for one draw: the length of the seed in 8 bytes, the seed,
/// and the counter in 8 bytes, both numbers big-endian.
pub open spec fn block_input(seed: Seq<u8>, counter: u64) -> Seq<u8> {
    be_bytes_fixed(seed.len(), 8) + seed + be_bytes_fixed(counter as nat, 8)
}

/// The counter after `draws` more draws. It wraps around at `2^64`.
pub open spec fn counter_after(counter: u64, draws: nat) -> u64 {
    ((counter + draws) % 0x1_0000_0000_0000_0000) as u64
}

/// The bytes that a draw of `len` bytes yields.
pub open spec fn drawn_bytes(seed: Seq<u8>, counter: u64, len: nat) -> Seq<u8> {
    shake256_xof(block_input(seed, counter), len)
}

/// The number of bytes that are drawn for a number below `end`: 16 more than `end`
/// itself has, so that reducing them mod `end` is all but uniform.
pub open spec fn draw_length(end: nat) -> nat {
    if byte_length(end) + 16 <= usize::MAX {
        byte_length(end) + 16
    } else {
        usize::MAX as nat
    }
}

/// The number below `end` that a draw yields.
pub open spec fn drawn_below(seed: Seq<u8>, counter: u64, end: nat) -> nat {
    nat_of_be(drawn_bytes(seed, counter, draw_length(end))) % end
}

/// Counting draws one by one is counting them at once.
pub proof fn lemma_counter_after_step(counter: u64, draws: nat)
    ensures
        counter_after(counter_after(counter, draws), 1) == counter_after(counter, draws + 1),
        counter_after(counter, 0) == counter,
{
    let m = 0x1_0000_0000_0000_0000int;
    let x = counter + draws;
    vstd::arithmetic::div_mod::lemma_add_mod_noop(x, 1, m);
    vstd::arithmetic::div_mod::lemma_small_mod(1, m as nat);
    vstd::arithmetic::div_mod::lemma_small_mod(counter as nat, m as nat);
    vstd::arithmetic::div_mod::lemma_mod_bound(x, m);
}

/// Counting draws in two lots is counting them at once.
pub proof fn lemma_counter_after_adds(counter: u64, first: nat, second: nat)
    ensures
        counter_after(counter_after(counter, first), second) == counter_after(
            counter,
            first + second,
        ),
{
    let m = 0x1_0000_0000_0000_0000int;
    let x = counter + first;
    vstd::arithmetic::div_mod::lemma_add_mod_noop(x, second as int, m);
    vstd::arithmetic::div_mod::lemma_add_mod_noop(x % m, second as int, m);
    vstd::arithmetic::div_mod::lemma_mod_bound(x, m);
    vstd::arithmetic::div_mod::lemma_mod_twice(x, m);
}

/// The 8 big-endian bytes of `v`.
fn u64_be_bytes(v: u64) -> (res: Vec<u8>)
    ensures
        res@ == be_bytes_fixed(v as nat, 8),
{
    let b0: u8 = (v % 256) as u8;
    let v1: u64 = v / 256;
    let b1: u8 = (v1 % 256) as u8;
    let v2: u64 = v1 / 256;
    let b2: u8 = (v2 % 256) as u8;
    let v3: u64 = v2 / 256;
    let b3: u8 = (v3 % 256) as u8;
    let v4: u64 = v3 / 256;
    let b4: u8 = (v4 % 256) as u8;
    let v5: u64 = v4 / 256;
    let b5: u8 = (v5 % 256) as u8;
    let v6: u64 = v5 / 256;
    let b6: u8 = (v6 % 256) as u8;
    let v7: u64 = v6 / 256;
    let b7: u8 = (v7 % 256) as u8;
    let mut res: Vec<u8> = Vec::new();
    res.push(b7);
    res.push(b6);
    res.push(b5);
    res.push(b4);
    res.push(b3);
    res.push(b2);
    res.push(b1);
    res.push(b0);
    proof {
        reveal_with_fuel(be_bytes_fixed, 9);
        assert(res@ =~= be_bytes_fixed(v as nat, 8));
    }
    res
}

/// A generator of pseudo-random numbers. What it yields is as hard to tell from random
/// numbers as the output of SHAKE256 is, for whoever does not know the seed.
pub struct Csprng {
    seed: Vec<u8>,
    counter: u64,
}

impl Csprng {
    /// The seed that the generator was made from.
    pub closed spec fn seed(&self) -> Seq<u8> {
        self.seed@
    }

    /// The number of draws made so far, mod `2^64`.
    pub closed spec fn counter(&self) -> u64 {
        self.counter
    }

    /// A generator for the seed bytes `seed`, with no draw made yet.
    pub fn new(seed: &[u8]) -> (res: Csprng)
        ensures
            res.seed() == seed@,
            res.counter() == 0,
    {
        Csprng { seed: vstd::slice::slice_to_vec(seed), counter: 0 }
    }

    /// Draws `len` bytes.
    pub fn next_bytes(&mut self, len: usize) -> (res: Vec<u8>)
        ensures
            res@ == drawn_bytes(old(self).seed(), old(self).counter(), len as nat),
            res@.len() == len,
            final(self).seed() == old(self).seed(),
            final(self).counter() == counter_after(old(self).counter(), 1),
    {
        let mut input: Vec<u8> = u64_be_bytes(self.seed.len() as u64);
        let ghost prefix = input@;
        let mut j: usize = 0;
        while j < self.seed.len()
            invariant
                j <= self.seed.len(),
                input@ == prefix + self.seed@.subrange(0, j as int),
            decreases self.seed.len() - j,
        {
            input.push(self.seed[j]);
            j = j + 1;
        }
        let mut tail: Vec<u8> = u64_be_bytes(self.counter);
        let ghost before = input@;
        input.append(&mut tail);
        proof {
            assert(self.seed@.subrange(0, self.seed@.len() as int) =~= self.seed@);
            assert(input@ =~= block_input(self.seed@, self.counter));
        }
        let res = shake256(input.as_slice(), len);
        self.counter = if self.counter == u64::MAX {
            0
        } else {
            self.counter + 1
        };
        res
    }

    /// Draws a number below `end`.
    pub fn next_biguint_lt(&mut self, end: &BigNat) -> (res: BigNat)
        requires
            end@ > 0,
        ensures
            res@ == drawn_below(old(self).seed(), old(self).counter(), end@),
            res@ < end@,
            final(self).seed() == old(self).seed(),
            final(self).counter() == counter_after(old(self).counter(), 1),
    {
        let needed: usize = end.byte_len();
        let len: usize = if needed <= usize::MAX - 16 {
            needed + 16
        } else {
            usize::MAX
        };
        let bytes = self.next_bytes(len);
        let wide = BigNat::from_be_bytes(bytes.as_slice());
        proof {
            vstd::arithmetic::div_mod::lemma_mod_bound(wide@ as int, end@ as int);
        }
        wide.rem(end)
    }
}

} // verus!
