use xeddsa::api;
use xeddsa::util::hash_i_padding;
use xeddsa::xed25519::PrivateKey;
use xeddsa::xed25519::PublicKey;
use xeddsa::Error;

/// The Montgomery public key matching a raw private key, computed by the
/// X25519 key-agreement crate.
fn montgomery_public(key: &[u8; 32]) -> [u8; 32] {
    x25519_dalek::x25519(*key, x25519_dalek::X25519_BASEPOINT_BYTES)
}

fn clamp_reference(key: &[u8; 32]) -> [u8; 32] {
    let mut c = *key;
    c[0] &= 0xf8;
    c[31] &= 0x7f;
    c[31] |= 0x40;
    c
}

fn test_key() -> [u8; 32] {
    let mut key = [0u8; 32];
    key[0] = 0x01;
    key
}

#[test]
fn sign_and_verify_roundtrip() {
    let key = test_key();
    let message = b"test";
    let public = montgomery_public(&key);

    let sig1 = api::sign(&key, message).unwrap();
    let sig2 = api::sign(&key, message).unwrap();
    assert_eq!(sig1.len(), 64);
    assert_eq!(sig2.len(), 64);
    assert_ne!(sig1, sig2);

    assert!(api::verify(&public, message, &sig1));
    assert!(api::verify(&public, message, &sig2));
}

#[test]
fn corrupted_signature_fails() {
    let key = test_key();
    let message = b"test";
    let public = montgomery_public(&key);
    let sig = api::sign(&key, message).unwrap();

    for byte in 0..64 {
        let mut corrupted = sig.clone();
        corrupted[byte] ^= 1 << (byte % 8);
        assert!(!api::verify(&public, message, &corrupted));
    }
}

#[test]
fn wrong_message_fails() {
    let key = test_key();
    let public = montgomery_public(&key);
    let sig = api::sign(&key, b"test").unwrap();
    assert!(!api::verify(&public, b"tess", &sig));
    assert!(!api::verify(&public, b"", &sig));
}

#[test]
fn keypair_derivation_idempotent() {
    let mut saw_unnegated_arm = false;
    for seed in 1u8..=16 {
        let mut key = [0u8; 32];
        key[0] = seed;
        key[7] = seed.wrapping_mul(37);
        let private = PrivateKey(key);
        let (scalar, point) = private.calculate_key_pair(0);
        assert_eq!(point[31] & 0x80, 0);
        if scalar == clamp_reference(&key) {
            saw_unnegated_arm = true;
            let again = PrivateKey(scalar).calculate_key_pair(0);
            assert_eq!(again.0, scalar);
            assert_eq!(again.1, point);
        }
    }
    assert!(saw_unnegated_arm);
}

#[test]
fn degenerate_public_key_rejected() {
    // The Montgomery u-coordinate p - 1, the exceptional point of the
    // birational map.
    let mut u = [0xffu8; 32];
    u[0] = 0xec;
    u[31] = 0x7f;
    let public = PublicKey(u);
    assert_eq!(public.convert_mont(0), Err(Error::UnusablePublicKey));
    assert_eq!(public.verify(b"test", &[0u8; 64]), Err(Error::UnusablePublicKey));
    assert!(!api::verify(&u, b"test", &[0u8; 64]));
}

#[test]
fn distinct_nonces_distinct_commitments() {
    let key = test_key();
    let message = b"identical message";
    let public = montgomery_public(&key);
    let private = PrivateKey(key);

    let sig1 = private.sign(message).unwrap();
    let sig2 = private.sign(message).unwrap();
    assert_ne!(sig1[0..32], sig2[0..32]);
    assert_eq!(PublicKey(public).verify(message, &sig1), Ok(()));
    assert_eq!(PublicKey(public).verify(message, &sig2), Ok(()));

    let mut corrupted = sig1;
    corrupted[40] ^= 0x10;
    assert_eq!(
        PublicKey(public).verify(message, &corrupted),
        Err(Error::InvalidSignature)
    );
}

#[test]
fn malformed_inputs_rejected() {
    let key = test_key();
    let public = montgomery_public(&key);
    let sig = api::sign(&key, b"test").unwrap();

    assert_eq!(api::sign(&key[0..31], b"test"), Err(Error::MalformedInput));
    let long_key = [0u8; 33];
    assert_eq!(api::sign(&long_key, b"test"), Err(Error::MalformedInput));
    // At the verify boundary a malformed input collapses to false, like any
    // other failure, even though the same signature is valid.
    assert!(api::verify(&public, b"test", &sig));
    assert!(!api::verify(&public[0..31], b"test", &sig));
    assert!(!api::verify(&public, b"test", &sig[0..63]));
}

#[test]
fn domain_pad_value() {
    let pad = hash_i_padding(1);
    assert_eq!(pad[0], 0xfe);
    for i in 1..32 {
        assert_eq!(pad[i], 0xff);
    }
    assert_eq!(hash_i_padding(0), [0xffu8; 32]);
}

#[test]
fn sign_with_nonce_deterministic() {
    let key = test_key();
    let message = b"test";
    let public = montgomery_public(&key);
    let nonce = [7u8; 64];
    let private = PrivateKey(key);

    let sig1 = private.sign_with_nonce(message, &nonce);
    let sig2 = private.sign_with_nonce(message, &nonce);
    assert_eq!(sig1, sig2);
    assert!(api::verify(&public, message, &sig1));
}

#[test]
fn private_key_from_bytes() {
    let key = test_key();
    let private = PrivateKey::from(&key);
    assert_eq!(private.0, key);
    let bytes = <[u8; 32]>::from(private);
    assert_eq!(bytes, key);
}

#[test]
fn wipe_clears_key_bytes() {
    let mut private = PrivateKey([0xabu8; 32]);
    private.wipe();
    assert_eq!(private.0, [0u8; 32]);
}

// Fixed reference values for the private key {0x01, 0x00, ..., 0x00}:
// its Montgomery public key, its derived Edwards keypair with target sign
// bit 0, and the signature over "test" with the fixed nonce [0x07; 64].
const REF_PUBLIC: [u8; 32] = [
    47, 229, 125, 163, 71, 205, 98, 67, 21, 40, 218, 172, 95, 187, 41, 7, 48, 255, 246, 132, 175,
    196, 207, 194, 237, 144, 153, 95, 88, 203, 59, 116,
];
const REF_SCALAR: [u8; 32] = [
    180, 79, 215, 115, 105, 140, 73, 96, 89, 115, 222, 139, 122, 231, 123, 83, 0, 0, 0, 0, 0, 0,
    0, 0, 0, 0, 0, 0, 0, 0, 0, 0,
];
const REF_POINT: [u8; 32] = [
    105, 62, 71, 151, 44, 175, 82, 124, 120, 131, 173, 27, 57, 130, 47, 2, 111, 71, 219, 42, 176,
    225, 145, 153, 85, 184, 153, 58, 160, 68, 17, 81,
];
const REF_SIGNATURE: [u8; 64] = [
    110, 210, 222, 205, 164, 47, 224, 225, 33, 11, 230, 245, 191, 198, 241, 192, 190, 154, 130,
    123, 17, 243, 14, 59, 145, 61, 57, 226, 116, 84, 26, 48, 169, 76, 172, 238, 134, 154, 188,
    126, 46, 143, 223, 137, 131, 184, 245, 50, 53, 140, 239, 29, 10, 173, 180, 29, 243, 72, 227,
    208, 211, 131, 123, 5,
];

#[test]
fn known_answer_vector_verifies() {
    let key = test_key();
    assert_eq!(montgomery_public(&key), REF_PUBLIC);
    assert!(api::verify(&REF_PUBLIC, b"test", &REF_SIGNATURE));
}

#[test]
fn known_answer_vector_reproduced() {
    let key = test_key();
    let private = PrivateKey(key);
    let (scalar, point) = private.calculate_key_pair(0);
    assert_eq!(scalar, REF_SCALAR);
    assert_eq!(point, REF_POINT);
    assert_eq!(private.sign_with_nonce(b"test", &[7u8; 64]), REF_SIGNATURE);
}

#[test]
fn known_answer_vector_corruption_fails() {
    for byte in 0..64 {
        let mut corrupted = REF_SIGNATURE;
        corrupted[byte] ^= 1 << (7 - (byte % 8));
        assert!(!api::verify(&REF_PUBLIC, b"test", &corrupted));
    }
}
