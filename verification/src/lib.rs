//! Cryptographic core of a verifiable election key ceremony: group parameters,
//! guardian keys, and the aggregation of guardian public keys into the joint
//! election public key.

pub mod artifact_text;
pub mod big_endian;
pub mod bignat;
mod biguint_ops;
pub mod csprng;
pub mod election_manifest;
pub mod election_parameters;
pub mod errors;
pub mod example_election_manifest;
pub mod fixed_parameters;
pub mod guardian_public_key;
pub mod guardian_secret_key;
pub mod hex_text;
pub mod joint_election_public_key;
pub mod joint_key_laws;
pub mod key_ceremony;
pub mod number_theory;
pub mod primality_laws;
pub mod primes;
pub mod standard_parameters;
pub mod varying_parameters;
