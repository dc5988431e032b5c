use base64::Engine;
use ml_kem::kem::{Decapsulate, Encapsulate};
use ml_kem::{EncodedSizeUser, KemCore, MlKem768};
use mlkem_glue::{decapsulate, derive_aes_key, encapsulate, keygen, KemError};

fn b64(bytes: &[u8]) -> String {
    base64::engine::general_purpose::STANDARD.encode(bytes)
}

fn b64d(s: &str) -> Vec<u8> {
    base64::engine::general_purpose::STANDARD.decode(s).unwrap()
}

#[test]
fn keygen_produces_fixed_size_keys() {
    let kp = keygen();
    assert_eq!(kp.public_key.len(), 1580);
    assert_eq!(kp.secret_key.len(), 3200);
    assert_eq!(b64d(&kp.public_key).len(), 1184);
    assert_eq!(b64d(&kp.secret_key).len(), 2400);
}

#[test]
fn keygen_draws_fresh_keys() {
    let a = keygen();
    let b = keygen();
    assert_ne!(a.public_key, b.public_key);
    assert_ne!(a.secret_key, b.secret_key);
}

#[test]
fn encapsulate_produces_fixed_size_outputs() {
    let kp = keygen();
    let enc = encapsulate(kp.public_key).unwrap();
    assert_eq!(b64d(&enc.ciphertext).len(), 1088);
    assert_eq!(b64d(&enc.shared_secret).len(), 32);
}

#[test]
fn encapsulate_then_decapsulate_recovers_shared_secret() {
    let kp = keygen();
    let enc = encapsulate(kp.public_key.clone()).unwrap();
    let ss = decapsulate(enc.ciphertext.clone(), kp.secret_key.clone()).unwrap();
    assert_eq!(ss, enc.shared_secret);
}

#[test]
fn decapsulate_is_deterministic() {
    let kp = keygen();
    let enc = encapsulate(kp.public_key.clone()).unwrap();
    let a = decapsulate(enc.ciphertext.clone(), kp.secret_key.clone()).unwrap();
    let b = decapsulate(enc.ciphertext.clone(), kp.secret_key.clone()).unwrap();
    assert_eq!(a, b);
}

#[test]
fn decapsulate_matches_the_primitive() {
    let (dk, ek) = MlKem768::generate(&mut rand_core::OsRng);
    let (ct, ss) = ek.encapsulate(&mut rand_core::OsRng).unwrap();
    let got = decapsulate(b64(&ct), b64(&dk.as_bytes())).unwrap();
    assert_eq!(got, b64(&ss));
}

#[test]
fn derive_matches_the_primitive() {
    let ikm = [7u8; 32];
    let hk = hkdf::Hkdf::<sha2::Sha256>::new(None, &ikm);
    let mut okm = [0u8; 32];
    hk.expand(b"ml-kem demo aes-gcm key", &mut okm).unwrap();
    let got = derive_aes_key(b64(&ikm)).unwrap();
    assert_eq!(got, b64(&okm));
}

#[test]
fn derive_is_deterministic() {
    let input = b64(&[42u8; 32]);
    let a = derive_aes_key(input.clone()).unwrap();
    let b = derive_aes_key(input).unwrap();
    assert_eq!(a, b);
    assert_eq!(b64d(&a).len(), 32);
}

#[test]
fn derive_accepts_an_empty_shared_secret() {
    let got = derive_aes_key(String::new()).unwrap();
    assert_ne!(got, String::new());
    assert_eq!(b64d(&got).len(), 32);
}

#[test]
fn encapsulate_rejects_bad_base64() {
    assert_eq!(
        encapsulate("####".to_string()).unwrap_err(),
        KemError::BadPublicKeyEncoding
    );
}

#[test]
fn encapsulate_rejects_wrong_key_length() {
    assert_eq!(
        encapsulate(b64(&[0u8; 16])).unwrap_err(),
        KemError::BadPublicKeyLength
    );
}

#[test]
fn decapsulate_rejects_bad_ciphertext_base64() {
    let kp = keygen();
    assert_eq!(
        decapsulate("!!".to_string(), kp.secret_key).unwrap_err(),
        KemError::BadCiphertextEncoding
    );
}

#[test]
fn decapsulate_rejects_bad_secret_key_base64() {
    assert_eq!(
        decapsulate(b64(&[0u8; 1088]), "!!".to_string()).unwrap_err(),
        KemError::BadSecretKeyEncoding
    );
}

#[test]
fn decapsulate_rejects_wrong_secret_key_length() {
    assert_eq!(
        decapsulate(b64(&[0u8; 1088]), b64(&[0u8; 10])).unwrap_err(),
        KemError::BadSecretKeyLength
    );
}

#[test]
fn decapsulate_rejects_wrong_ciphertext_length() {
    assert_eq!(
        decapsulate(b64(&[0u8; 4]), b64(&[0u8; 2400])).unwrap_err(),
        KemError::BadCiphertextLength
    );
}

#[test]
fn derive_rejects_bad_base64() {
    assert_eq!(
        derive_aes_key("not base64!".to_string()).unwrap_err(),
        KemError::BadSharedSecretEncoding
    );
}

#[test]
fn derive_rejects_non_canonical_base64() {
    // "AAA" lacks the required padding; "AB==" has non-zero trailing bits.
    assert_eq!(
        derive_aes_key("AAA".to_string()).unwrap_err(),
        KemError::BadSharedSecretEncoding
    );
    assert_eq!(
        derive_aes_key("AB==".to_string()).unwrap_err(),
        KemError::BadSharedSecretEncoding
    );
}
