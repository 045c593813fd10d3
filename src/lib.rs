//! Primitives of a key-based identity scheme: P-256 key pairs, ECDSA signing
//! and verification, SHA-256 and RIPEMD-160 digests, Base58 text encoding and
//! a millisecond wall clock.
pub mod base58;
pub mod clock;
pub mod ecdsa;
pub mod hashing;

pub use base58::{base58_decode, base58_encode, DecodeError};
pub use clock::{current_timestamp, timestamp_from_elapsed, ClockError};
pub use ecdsa::{
    ecdsa_p256_public_key, ecdsa_p256_sha256_sign_digest, ecdsa_p256_sha256_sign_verify, new_key_pair,
    CryptoError,
};
pub use hashing::{ripemd160_digest, sha256_digest};
