//! SHA-256 and RIPEMD-160 digests.
use vstd::prelude::*;
use crypto::digest::Digest;

verus! {

/// The SHA-256 digest of a byte sequence.
pub uninterp spec fn sha256_of(data: Seq<u8>) -> Seq<u8>;

/// The RIPEMD-160 digest of a byte sequence.
pub uninterp spec fn ripemd160_of(data: Seq<u8>) -> Seq<u8>;

/// Relies on `ring::digest::digest` with `SHA256`: the digest depends on the
/// bytes alone and is `SHA256.output_len`, 32 bytes, long.
#[verifier::external_body]
fn ring_sha256(data: &[u8]) -> (r: Vec<u8>)
    ensures
        r@ == sha256_of(data@),
        r@.len() == 32,
{
    ring::digest::digest(&ring::digest::SHA256, data).as_ref().to_vec()
}

/// Relies on rust-crypto's `Ripemd160` hasher, fed the bytes once and read
/// out: the digest depends on the bytes alone and is `output_bytes()`, 20
/// bytes, long.
#[verifier::external_body]
fn crypto_ripemd160(data: &[u8]) -> (r: Vec<u8>)
    ensures
        r@ == ripemd160_of(data@),
        r@.len() == 20,
{
    let mut hasher = crypto::ripemd160::Ripemd160::new();
    hasher.input(data);
    let mut out: Vec<u8> = vec![0u8; hasher.output_bytes()];
    hasher.result(&mut out);
    out
}

/// The 32-byte SHA-256 digest of `data`.
pub fn sha256_digest(data: &[u8]) -> (r: Vec<u8>)
    ensures
        r@ == sha256_of(data@),
        r@.len() == 32,
{
    ring_sha256(data)
}

/// The 20-byte RIPEMD-160 digest of `data`.
pub fn ripemd160_digest(data: &[u8]) -> (r: Vec<u8>)
    ensures
        r@ == ripemd160_of(data@),
        r@.len() == 20,
{
    crypto_ripemd160(data)
}

/// Each digest depends on the input bytes alone: two calls on equal bytes
/// give equal digests.
pub proof fn lemma_digests_deterministic(a: Seq<u8>, b: Seq<u8>)
    requires
        a == b,
    ensures
        sha256_of(a) == sha256_of(b),
        ripemd160_of(a) == ripemd160_of(b),
{
}

} // verus!
