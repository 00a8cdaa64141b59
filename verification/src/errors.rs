//! Structured errors, one enum per failure family.

use vstd::prelude::*;

verus! {

/// Why a parameter set was rejected. Each variant names the violated relation.
#[derive(Debug, Clone, Copy, PartialEq, Eq, Structural)]
pub enum ParameterValidationError {
    /// The modulus `p` failed the primality test.
    ModulusNotPrime,
    /// The subgroup order `q` failed the primality test.
    OrderNotPrime,
    /// The bit length of `p` differs from the declared `p_bits_total`.
    ModulusBitLength,
    /// The bit length of `q` differs from the declared `q_bits_total`.
    OrderBitLength,
    /// The generator is outside `[2, p - 2]`.
    GeneratorOutOfRange,
    /// `g^q mod p != 1`, or `g` is the identity.
    GeneratorWrongOrder,
    /// `p != q * r + 1`.
    GroupRelation,
    /// The guardian count `n` is zero.
    GuardianCountZero,
    /// The quorum threshold `k` is zero.
    QuorumZero,
    /// The quorum threshold `k` exceeds the guardian count `n`.
    QuorumExceedsGuardianCount,
}

/// A guardian index that cannot be used.
#[derive(Debug, Clone, Copy, PartialEq, Eq, Structural)]
pub enum KeyIndexError {
    /// The index is outside `[1, n]`.
    OutOfRange { i: u16, n: u16 },
    /// The index asked for differs from the one stored in the loaded key.
    Mismatch { requested: u16, loaded: u16 },
}

/// Why a guardian key was rejected.
#[derive(Debug, Clone, Copy, PartialEq, Eq, Structural)]
pub enum KeyValidationError {
    /// The guardian index is not usable with the election parameters.
    Index(KeyIndexError),
    /// The key holds no group element, and a key needs one at least.
    NoElement,
    /// The secret key does not hold as many commitments as secret coefficients.
    CommitmentCount { coefficients: usize, commitments: usize },
    /// The group element at `position` is not a member of the order-`q` subgroup.
    NotInSubgroup { position: usize },
    /// The secret coefficient at `position` is not below `q`.
    CoefficientOutOfRange { position: usize },
    /// The commitment at `position` is not `g` to the power of the secret coefficient
    /// at that position.
    CommitmentMismatch { position: usize },
}

/// Why a guardian key that was asked for could not be handed out.
#[derive(Debug, Clone, Copy, PartialEq, Eq, Structural)]
pub enum KeyLoadError {
    /// Neither a guardian number nor a key file was named.
    NoSource,
    /// The key that was loaded failed its validation.
    Invalid(KeyValidationError),
    /// The key that was loaded is not the key of the guardian that was asked for.
    Index(KeyIndexError),
}

/// Why bytes that were read could not be taken for a value.
#[derive(Debug, Clone, Copy, PartialEq, Eq, Structural)]
pub enum CodecError {
    /// The bytes are not the text of a value.
    Malformed,
    /// The bytes are the text of a value, and the value failed its validation.
    Invalid { error: KeyValidationError },
}

/// Why the guardian public keys could not be combined into a joint election public key.
#[derive(Debug, PartialEq, Eq)]
pub enum AggregationError {
    /// The key at `position` of the supplied keys failed its validation.
    InvalidKey { position: usize, error: KeyValidationError },
    /// Guardian number `i` is represented more than once.
    DuplicateIndex { i: u16 },
    /// The guardian numbers that are not represented, all of them, in ascending order.
    MissingIndices { missing: Vec<u16> },
}

} // verus!
