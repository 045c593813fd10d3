use crypto_utils::{
    ecdsa_p256_public_key, ecdsa_p256_sha256_sign_digest, ecdsa_p256_sha256_sign_verify,
    new_key_pair, CryptoError,
};
use ring::signature::KeyPair;

fn public_key_of(pkcs8: &[u8]) -> Vec<u8> {
    ecdsa_p256_public_key(pkcs8).unwrap()
}

fn ring_public_key_of(pkcs8: &[u8]) -> Vec<u8> {
    ring::signature::EcdsaKeyPair::from_pkcs8(
        &ring::signature::ECDSA_P256_SHA256_FIXED_SIGNING,
        pkcs8,
    )
    .unwrap()
    .public_key()
    .as_ref()
    .to_vec()
}

#[test]
fn generated_key_signs_and_verifies() {
    let key = new_key_pair().unwrap();
    let public_key = public_key_of(&key);
    for message in [&b""[..], b"pay 5 coins", &[9u8; 300][..]] {
        let signature = ecdsa_p256_sha256_sign_digest(&key, message).unwrap();
        assert_eq!(signature.len(), 64);
        assert!(ecdsa_p256_sha256_sign_verify(&public_key, &signature, message));
    }
}

#[test]
fn signature_for_other_message_does_not_verify() {
    let key = new_key_pair().unwrap();
    let public_key = public_key_of(&key);
    let signature = ecdsa_p256_sha256_sign_digest(&key, b"message one").unwrap();
    assert!(!ecdsa_p256_sha256_sign_verify(&public_key, &signature, b"message two"));
}

#[test]
fn signature_under_other_key_does_not_verify() {
    let key = new_key_pair().unwrap();
    let other_public_key = public_key_of(&new_key_pair().unwrap());
    let signature = ecdsa_p256_sha256_sign_digest(&key, b"hello").unwrap();
    assert!(!ecdsa_p256_sha256_sign_verify(&other_public_key, &signature, b"hello"));
}

#[test]
fn tampered_signature_does_not_verify() {
    let key = new_key_pair().unwrap();
    let public_key = public_key_of(&key);
    let mut signature = ecdsa_p256_sha256_sign_digest(&key, b"hello").unwrap();
    signature[10] ^= 1;
    assert!(!ecdsa_p256_sha256_sign_verify(&public_key, &signature, b"hello"));
}

#[test]
fn malformed_inputs_do_not_verify() {
    let key = new_key_pair().unwrap();
    let public_key = public_key_of(&key);
    let signature = ecdsa_p256_sha256_sign_digest(&key, b"hello").unwrap();
    assert!(!ecdsa_p256_sha256_sign_verify(&public_key, &signature[..63], b"hello"));
    assert!(!ecdsa_p256_sha256_sign_verify(&public_key[..64], &signature, b"hello"));
    assert!(!ecdsa_p256_sha256_sign_verify(&[], &signature, b"hello"));
    let mut bad_tag = public_key.clone();
    bad_tag[0] = 3;
    assert!(!ecdsa_p256_sha256_sign_verify(&bad_tag, &signature, b"hello"));
}

#[test]
fn key_pairs_are_fresh() {
    assert_ne!(new_key_pair().unwrap(), new_key_pair().unwrap());
}

#[test]
fn malformed_key_material_is_rejected() {
    assert_eq!(
        ecdsa_p256_sha256_sign_digest(&[], b"hello"),
        Err(CryptoError::KeyRejected)
    );
    assert_eq!(
        ecdsa_p256_sha256_sign_digest(&[0x30, 0x03, 0x02, 0x01, 0x00], b"hello"),
        Err(CryptoError::KeyRejected)
    );
    let key = new_key_pair().unwrap();
    assert_eq!(
        ecdsa_p256_sha256_sign_digest(&key[..key.len() - 1], b"hello"),
        Err(CryptoError::KeyRejected)
    );
}

#[test]
fn public_key_matches_the_document() {
    let key = new_key_pair().unwrap();
    let public_key = ecdsa_p256_public_key(&key).unwrap();
    assert_eq!(public_key.len(), 65);
    assert_eq!(public_key[0], 4);
    assert_eq!(public_key, ring_public_key_of(&key));
}

#[test]
fn public_key_of_malformed_document_is_rejected() {
    assert_eq!(ecdsa_p256_public_key(&[]), Err(CryptoError::KeyRejected));
    assert_eq!(ecdsa_p256_public_key(&[1, 2, 3]), Err(CryptoError::KeyRejected));
}

#[test]
fn signature_scalars_are_in_range() {
    let order: [u8; 32] = [
        0xff, 0xff, 0xff, 0xff, 0x00, 0x00, 0x00, 0x00, 0xff, 0xff, 0xff, 0xff, 0xff, 0xff, 0xff,
        0xff, 0xbc, 0xe6, 0xfa, 0xad, 0xa7, 0x17, 0x9e, 0x84, 0xf3, 0xb9, 0xca, 0xc2, 0xfc, 0x63,
        0x25, 0x51,
    ];
    let key = new_key_pair().unwrap();
    let signature = ecdsa_p256_sha256_sign_digest(&key, b"range").unwrap();
    for half in [&signature[..32], &signature[32..]] {
        assert!(half.iter().any(|b| *b != 0));
        assert!(half < &order[..]);
    }
}

#[test]
fn point_off_the_curve_does_not_verify() {
    let key = new_key_pair().unwrap();
    let mut public_key = public_key_of(&key);
    let signature = ecdsa_p256_sha256_sign_digest(&key, b"hello").unwrap();
    public_key[64] ^= 1;
    assert!(!ecdsa_p256_sha256_sign_verify(&public_key, &signature, b"hello"));
}

#[test]
fn zero_scalars_do_not_verify() {
    let key = new_key_pair().unwrap();
    let public_key = public_key_of(&key);
    assert!(!ecdsa_p256_sha256_sign_verify(&public_key, &[0u8; 64], b"hello"));
}
