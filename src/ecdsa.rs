//! P-256 key pairs and ECDSA signatures over SHA-256 in the fixed (r || s)
//! encoding.
use vstd::prelude::*;

verus! {

#[verifier::external_type_specification]
#[verifier::external_body]
pub struct ExSystemRandom(ring::rand::SystemRandom);

#[verifier::external_type_specification]
#[verifier::external_body]
pub struct ExEcdsaKeyPair(ring::signature::EcdsaKeyPair);

#[verifier::external_type_specification]
#[verifier::external_body]
pub struct ExUnspecified(ring::error::Unspecified);

#[verifier::external_type_specification]
#[verifier::external_body]
pub struct ExKeyRejected(ring::error::KeyRejected);

/// Whether `signature` is a valid ECDSA P-256 / SHA-256 signature, in the
/// fixed encoding, of `message` under the uncompressed public key
/// `public_key`.
pub uninterp spec fn p256_signature_valid(public_key: Seq<u8>, signature: Seq<u8>, message: Seq<u8>) -> bool;

/// Whether ring's PKCS#8 parser reads `pkcs8` as a P-256 key pair whose
/// public and private halves agree.
pub uninterp spec fn p256_pkcs8_accepted(pkcs8: Seq<u8>) -> bool;

/// The uncompressed public key held in the PKCS#8 document `pkcs8`.
pub uninterp spec fn p256_public_key_of(pkcs8: Seq<u8>) -> Seq<u8>;

/// Length of a signature in the fixed encoding: two 32-byte scalars.
pub const SIGNATURE_LEN: usize = 64;

/// Length of an uncompressed P-256 public key: the tag `4` and two 32-byte
/// coordinates.
pub const PUBLIC_KEY_LEN: usize = 65;

/// The number that `b` writes in big-endian order.
pub open spec fn be_value(b: Seq<u8>) -> nat
    decreases b.len(),
{
    if b.len() == 0 {
        0
    } else {
        be_value(b.drop_last()) * 256 + b.last() as nat
    }
}

/// The number whose 64-bit digits, most significant first, are `a`, `b`,
/// `c`, `d`.
pub open spec fn from_u64_limbs(a: int, b: int, c: int, d: int) -> int {
    let w = 0x1_0000_0000_0000_0000int;
    ((a * w + b) * w + c) * w + d
}

/// The prime of the field that P-256 is defined over.
pub open spec fn p256_field_prime() -> int {
    from_u64_limbs(0xffffffff00000001, 0x0000000000000000, 0x00000000ffffffff, 0xffffffffffffffff)
}

/// The order `n` of the P-256 base point.
pub open spec fn p256_group_order() -> int {
    from_u64_limbs(0xffffffff00000000, 0xffffffffffffffff, 0xbce6faada7179e84, 0xf3b9cac2fc632551)
}

/// The constant `b` of the P-256 curve `y^2 = x^3 - 3x + b`.
pub open spec fn p256_curve_b() -> int {
    from_u64_limbs(0x5ac635d8aa3a93e7, 0xb3ebbd55769886bc, 0x651d06b0cc53b0f6, 0x3bce3c3e27d2604b)
}

/// A 32-byte big-endian scalar in `1 .. n - 1`.
pub open spec fn p256_scalar_in_range(b: Seq<u8>) -> bool {
    &&& b.len() == 32
    &&& 1 <= be_value(b)
    &&& be_value(b) < p256_group_order()
}

/// A fixed-encoding signature: `r` then `s`, both scalars in `1 .. n - 1`.
pub open spec fn p256_signature_well_formed(sig: Seq<u8>) -> bool {
    &&& sig.len() == SIGNATURE_LEN
    &&& p256_scalar_in_range(sig.subrange(0, 32))
    &&& p256_scalar_in_range(sig.subrange(32, 64))
}

/// An uncompressed point: the tag `4`, then coordinates `x` and `y` below the
/// field prime that satisfy the curve equation.
pub open spec fn p256_public_key_well_formed(pk: Seq<u8>) -> bool {
    let p = p256_field_prime();
    let x = be_value(pk.subrange(1, 33)) as int;
    let y = be_value(pk.subrange(33, 65)) as int;
    &&& pk.len() == PUBLIC_KEY_LEN
    &&& pk[0] == 4
    &&& x < p
    &&& y < p
    &&& (y * y - (x * x * x - 3 * x + p256_curve_b())) % p == 0
}

/// A P-256 key pair loaded from a PKCS#8 document, with the document it was
/// loaded from.
pub struct LoadedKeyPair {
    key_pair: ring::signature::EcdsaKeyPair,
    pkcs8: Ghost<Seq<u8>>,
}

impl LoadedKeyPair {
    /// The PKCS#8 document this key pair was loaded from.
    pub closed spec fn document(&self) -> Seq<u8> {
        self.pkcs8@
    }
}

/// Why a key could not be made or used.
#[derive(Debug, Clone, Copy, PartialEq, Eq, Structural)]
pub enum CryptoError {
    /// No key pair could be generated (the random source failed).
    KeyGenerationFailed,
    /// The key material is not a P-256 PKCS#8 key pair that can be loaded.
    KeyRejected,
    /// The key loaded but no signature could be produced (the random source
    /// failed).
    SigningFailed,
}

/// Relies on `ring::rand::SystemRandom::new`: a handle on the operating
/// system's secure random source.
#[verifier::external_body]
fn system_random() -> (r: ring::rand::SystemRandom) {
    ring::rand::SystemRandom::new()
}

/// Relies on `EcdsaKeyPair::generate_pkcs8` with
/// `ECDSA_P256_SHA256_FIXED_SIGNING`: a fresh key pair as a PKCS#8 v1
/// document with the public key included, which the parser of `from_pkcs8`
/// reads, or an error when the random source fails.
#[verifier::external_body]
fn generate_p256_pkcs8(rng: &ring::rand::SystemRandom) -> (r: Result<Vec<u8>, ring::error::Unspecified>)
    ensures
        r matches Ok(doc) ==> p256_pkcs8_accepted(doc@),
{
    ring::signature::EcdsaKeyPair::generate_pkcs8(&ring::signature::ECDSA_P256_SHA256_FIXED_SIGNING, rng)
        .map(|doc| doc.as_ref().to_vec())
}

/// Relies on `EcdsaKeyPair::from_pkcs8` with
/// `ECDSA_P256_SHA256_FIXED_SIGNING`: the key pair, or `KeyRejected`. It
/// succeeds only on a document its parser accepts, never on an empty one; even
/// then it may fail, as it draws a nonce key from the random source.
#[verifier::external_body]
fn load_p256_key_pair(pkcs8: &[u8]) -> (r: Result<LoadedKeyPair, ring::error::KeyRejected>)
    ensures
        r matches Ok(k) ==> p256_pkcs8_accepted(pkcs8@) && k.document() == pkcs8@,
        pkcs8@.len() == 0 ==> r is Err,
{
    ring::signature::EcdsaKeyPair::from_pkcs8(&ring::signature::ECDSA_P256_SHA256_FIXED_SIGNING, pkcs8)
        .map(|key_pair| LoadedKeyPair { key_pair, pkcs8: Ghost(pkcs8@) })
}

/// Relies on `EcdsaKeyPair::sign`: a randomized signature of `message` under
/// the key pair, whose public key is the one its document holds. The fixed
/// encoding writes `r` and `s`, each nonzero and reduced modulo the group
/// order, as two 32-byte scalars. It fails when the random source fails.
#[verifier::external_body]
fn sign_with_key_pair(
    key: &LoadedKeyPair,
    rng: &ring::rand::SystemRandom,
    message: &[u8],
) -> (r: Result<Vec<u8>, ring::error::Unspecified>)
    ensures
        r matches Ok(sig) ==> p256_signature_well_formed(sig@)
            && p256_signature_valid(p256_public_key_of(key.document()), sig@, message@),
{
    key.key_pair.sign(rng, message).map(|sig| sig.as_ref().to_vec())
}

/// Relies on `KeyPair::public_key` of `EcdsaKeyPair`: the uncompressed public
/// key that the key pair's document holds.
#[verifier::external_body]
fn public_key_bytes(key: &LoadedKeyPair) -> (r: Vec<u8>)
    ensures
        r@ == p256_public_key_of(key.document()),
{
    ring::signature::KeyPair::public_key(&key.key_pair).as_ref().to_vec()
}

/// Relies on `UnparsedPublicKey::verify` with `ECDSA_P256_SHA256_FIXED`: it
/// depends on its three inputs alone, and it fails on a public key that is not
/// an uncompressed point on the curve, and on a signature that is not 64
/// bytes or whose `r` or `s` lies outside `1 .. n - 1`.
#[verifier::external_body]
fn verify_p256(public_key: &[u8], signature: &[u8], message: &[u8]) -> (r: bool)
    ensures
        r == p256_signature_valid(public_key@, signature@, message@),
        !p256_public_key_well_formed(public_key@) ==> !r,
        !p256_signature_well_formed(signature@) ==> !r,
{
    ring::signature::UnparsedPublicKey::new(&ring::signature::ECDSA_P256_SHA256_FIXED, public_key)
        .verify(message, signature)
        .is_ok()
}

/// A fresh P-256 key pair, drawn from the system's secure random source, as
/// a PKCS#8 document in the format that `ecdsa_p256_sha256_sign_digest` takes.
pub fn new_key_pair() -> (r: Result<Vec<u8>, CryptoError>)
    ensures
        r matches Ok(k) ==> p256_pkcs8_accepted(k@),
        r matches Err(e) ==> e == CryptoError::KeyGenerationFailed,
{
    let rng = system_random();
    match generate_p256_pkcs8(&rng) {
        Ok(pkcs8) => Ok(pkcs8),
        Err(_) => Err(CryptoError::KeyGenerationFailed),
    }
}

/// Signs `message` with the key pair in the PKCS#8 document `pkcs8`, with a
/// fresh random nonce: a 64-byte signature that verifies under the public key
/// the document holds, `KeyRejected` when the document does not load, or
/// `SigningFailed` when the random source fails. An empty document, or one
/// that the parser refuses, is always `KeyRejected`; the message never causes
/// an error.
pub fn ecdsa_p256_sha256_sign_digest(pkcs8: &[u8], message: &[u8]) -> (r: Result<Vec<u8>, CryptoError>)
    ensures
        r matches Ok(sig) ==> p256_signature_well_formed(sig@)
            && p256_signature_valid(p256_public_key_of(pkcs8@), sig@, message@),
        pkcs8@.len() == 0 ==> r == Err::<Vec<u8>, CryptoError>(CryptoError::KeyRejected),
        !p256_pkcs8_accepted(pkcs8@) ==> r == Err::<Vec<u8>, CryptoError>(CryptoError::KeyRejected),
        r matches Err(e) ==> e == CryptoError::KeyRejected || e == CryptoError::SigningFailed,
{
    let key_pair = match load_p256_key_pair(pkcs8) {
        Ok(key_pair) => key_pair,
        Err(_) => {
            return Err(CryptoError::KeyRejected);
        },
    };
    let rng = system_random();
    match sign_with_key_pair(&key_pair, &rng, message) {
        Ok(sig) => Ok(sig),
        Err(_) => Err(CryptoError::SigningFailed),
    }
}

/// The uncompressed public key held in the PKCS#8 document `pkcs8`, or
/// `KeyRejected` when the document does not load. An empty document, or one
/// that the parser refuses, is always `KeyRejected`.
pub fn ecdsa_p256_public_key(pkcs8: &[u8]) -> (r: Result<Vec<u8>, CryptoError>)
    ensures
        r matches Ok(pk) ==> pk@ == p256_public_key_of(pkcs8@),
        pkcs8@.len() == 0 ==> r == Err::<Vec<u8>, CryptoError>(CryptoError::KeyRejected),
        !p256_pkcs8_accepted(pkcs8@) ==> r == Err::<Vec<u8>, CryptoError>(CryptoError::KeyRejected),
        r matches Err(e) ==> e == CryptoError::KeyRejected,
{
    match load_p256_key_pair(pkcs8) {
        Ok(key) => Ok(public_key_bytes(&key)),
        Err(_) => Err(CryptoError::KeyRejected),
    }
}

/// Whether `signature` is a valid signature of `message` under the
/// uncompressed P-256 key `public_key`. Every failure, a malformed key or
/// signature included, is `false`.
pub fn ecdsa_p256_sha256_sign_verify(public_key: &[u8], signature: &[u8], message: &[u8]) -> (r: bool)
    ensures
        r == p256_signature_valid(public_key@, signature@, message@),
        !p256_public_key_well_formed(public_key@) ==> !r,
        !p256_signature_well_formed(signature@) ==> !r,
{
    verify_p256(public_key, signature, message)
}

} // verus!
