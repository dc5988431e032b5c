//! ML-KEM-768 key encapsulation and key derivation for a host environment.
//!
//! The library exposes four operations: key-pair generation, encapsulation,
//! decapsulation, and derivation of a 32-byte symmetric key from a shared
//! secret. Byte buffers cross the boundary as standard base64 strings. The
//! cryptographic primitives themselves (the lattice KEM, HKDF-SHA-256, the
//! base64 codec) are supplied by outside crates through trusted wrappers;
//! this crate contributes and verifies the marshaling around them: decoding,
//! length validation, the error rules, and re-encoding.

use vstd::prelude::*;

pub mod b64;
pub mod kdf;
pub mod mlkem;

use crate::b64::{b64_decode, b64_decoded_of, b64_encode, b64_len, b64_of, is_b64_of_len};
use crate::kdf::hkdf_sha256_okm32;
use crate::mlkem::mlkem768_decap_of;

verus! {

/// Bytes in an encoded ML-KEM-768 encapsulation (public) key.
pub const ENCAP_KEY_LEN: usize = 1184;
/// Bytes in an encoded ML-KEM-768 decapsulation (secret) key.
pub const DECAP_KEY_LEN: usize = 2400;
/// Bytes in an ML-KEM-768 ciphertext.
pub const CIPHERTEXT_LEN: usize = 1088;
/// Bytes in a KEM shared secret.
pub const SHARED_SECRET_LEN: usize = 32;
/// Bytes in a derived symmetric key.
pub const DERIVED_KEY_LEN: usize = 32;

/// Why an input was rejected: it was not canonical base64, or it decoded to
/// a buffer of the wrong length for its role.
#[derive(Clone, Copy, Debug, PartialEq, Eq, Structural)]
pub enum KemError {
    BadPublicKeyEncoding,
    BadPublicKeyLength,
    BadCiphertextEncoding,
    BadCiphertextLength,
    BadSecretKeyEncoding,
    BadSecretKeyLength,
    BadSharedSecretEncoding,
}

/// A freshly generated key pair, both keys base64-encoded.
#[derive(Clone, Debug)]
pub struct KeyPair {
    pub public_key: String,
    pub secret_key: String,
}

/// Generate an ML-KEM-768 key pair from the operating system's randomness.
///
/// The keys are random, so the contract states what holds of every outcome:
/// each field is the standard base64 encoding of a buffer of the fixed
/// ML-KEM-768 size for its role.
pub fn keygen() -> (r: KeyPair)
    ensures
        is_b64_of_len(r.public_key@, ENCAP_KEY_LEN as nat),
        is_b64_of_len(r.secret_key@, DECAP_KEY_LEN as nat),
        r.public_key@.len() == b64_len(ENCAP_KEY_LEN as nat),
        r.secret_key@.len() == b64_len(DECAP_KEY_LEN as nat),
{
    let (ek, dk) = crate::mlkem::mlkem768_generate();
    let public_key = b64_encode(ek.as_slice());
    let secret_key = b64_encode(dk.as_slice());
    KeyPair { public_key, secret_key }
}

/// The ciphertext and shared secret produced by one encapsulation, both
/// base64-encoded.
#[derive(Clone, Debug)]
pub struct Encapsulation {
    pub ciphertext: String,
    pub shared_secret: String,
}

/// Encapsulate a fresh shared secret under a base64-encoded public key.
///
/// The string must decode to exactly `ENCAP_KEY_LEN` bytes; the contract
/// says which error each bad input gets. The shared secret is random, so of
/// a success the contract states what holds of every outcome: each field
/// encodes a buffer of the fixed size for its role.
pub fn encapsulate(public_key_b64: String) -> (r: Result<Encapsulation, KemError>)
    ensures
        b64_decoded_of(public_key_b64@) is None ==> r == Err::<Encapsulation, KemError>(
            KemError::BadPublicKeyEncoding,
        ),
        b64_decoded_of(public_key_b64@) matches Some(pk) && pk.len() != ENCAP_KEY_LEN as nat
            ==> r == Err::<Encapsulation, KemError>(KemError::BadPublicKeyLength),
        b64_decoded_of(public_key_b64@) matches Some(pk) && pk.len() == ENCAP_KEY_LEN as nat
            ==> (r matches Ok(e) && is_b64_of_len(e.ciphertext@, CIPHERTEXT_LEN as nat)
            && is_b64_of_len(e.shared_secret@, SHARED_SECRET_LEN as nat) && e.ciphertext@.len()
            == b64_len(CIPHERTEXT_LEN as nat) && e.shared_secret@.len() == b64_len(
            SHARED_SECRET_LEN as nat,
        )),
{
    let pk = match b64_decode(public_key_b64.as_str()) {
        Some(pk) => pk,
        None => {
            return Err(KemError::BadPublicKeyEncoding);
        },
    };
    if pk.len() != ENCAP_KEY_LEN {
        return Err(KemError::BadPublicKeyLength);
    }
    let (ct, ss) = crate::mlkem::mlkem768_encapsulate(pk.as_slice());
    let ciphertext = b64_encode(ct.as_slice());
    let shared_secret = b64_encode(ss.as_slice());
    Ok(Encapsulation { ciphertext, shared_secret })
}

/// Recover the shared secret from a base64-encoded ciphertext and secret
/// key, and return it base64-encoded.
///
/// Decapsulation is deterministic, so the success case is pinned exactly:
/// the result is the encoding of what ML-KEM-768 decapsulation returns for
/// the two decoded buffers. The error cases follow the order in which the
/// inputs are examined: the ciphertext's encoding, then the secret key's
/// encoding, then the secret key's length, then the ciphertext's length.
pub fn decapsulate(ciphertext_b64: String, secret_key_b64: String) -> (r: Result<
    String,
    KemError,
>)
    ensures
        b64_decoded_of(ciphertext_b64@) is None ==> r == Err::<String, KemError>(
            KemError::BadCiphertextEncoding,
        ),
        b64_decoded_of(ciphertext_b64@) is Some && b64_decoded_of(secret_key_b64@) is None ==> r
            == Err::<String, KemError>(KemError::BadSecretKeyEncoding),
        b64_decoded_of(ciphertext_b64@) is Some && b64_decoded_of(secret_key_b64@) is Some
            && b64_decoded_of(secret_key_b64@).unwrap().len() != DECAP_KEY_LEN as nat ==> r
            == Err::<String, KemError>(KemError::BadSecretKeyLength),
        b64_decoded_of(ciphertext_b64@) is Some && b64_decoded_of(secret_key_b64@) is Some
            && b64_decoded_of(secret_key_b64@).unwrap().len() == DECAP_KEY_LEN as nat
            && b64_decoded_of(ciphertext_b64@).unwrap().len() != CIPHERTEXT_LEN as nat ==> r
            == Err::<String, KemError>(KemError::BadCiphertextLength),
        b64_decoded_of(ciphertext_b64@) is Some && b64_decoded_of(secret_key_b64@) is Some
            && b64_decoded_of(secret_key_b64@).unwrap().len() == DECAP_KEY_LEN as nat
            && b64_decoded_of(ciphertext_b64@).unwrap().len() == CIPHERTEXT_LEN as nat ==> (
        r matches Ok(s) && s@ == b64_of(
            mlkem768_decap_of(
                b64_decoded_of(ciphertext_b64@).unwrap(),
                b64_decoded_of(secret_key_b64@).unwrap(),
            ),
        )),
{
    let ct = match b64_decode(ciphertext_b64.as_str()) {
        Some(v) => v,
        None => {
            return Err(KemError::BadCiphertextEncoding);
        },
    };
    let sk = match b64_decode(secret_key_b64.as_str()) {
        Some(v) => v,
        None => {
            return Err(KemError::BadSecretKeyEncoding);
        },
    };
    if sk.len() != DECAP_KEY_LEN {
        return Err(KemError::BadSecretKeyLength);
    }
    if ct.len() != CIPHERTEXT_LEN {
        return Err(KemError::BadCiphertextLength);
    }
    let ss = crate::mlkem::mlkem768_decapsulate(ct.as_slice(), sk.as_slice());
    Ok(b64_encode(ss.as_slice()))
}

/// The info string handed to HKDF when deriving a symmetric key: the bytes
/// of "ml-kem demo aes-gcm key".
pub open spec fn kdf_info_spec() -> Seq<u8> {
    seq![
        109u8, 108u8, 45u8, 107u8, 101u8, 109u8, 32u8, 100u8, 101u8, 109u8, 111u8, 32u8, 97u8,
        101u8, 115u8, 45u8, 103u8, 99u8, 109u8, 32u8, 107u8, 101u8, 121u8,
    ]
}

/// Build the HKDF info string as a byte vector.
fn kdf_info() -> (r: Vec<u8>)
    ensures
        r@ == kdf_info_spec(),
{
    let mut v: Vec<u8> = Vec::new();
    v.push(109);
    v.push(108);
    v.push(45);
    v.push(107);
    v.push(101);
    v.push(109);
    v.push(32);
    v.push(100);
    v.push(101);
    v.push(109);
    v.push(111);
    v.push(32);
    v.push(97);
    v.push(101);
    v.push(115);
    v.push(45);
    v.push(103);
    v.push(99);
    v.push(109);
    v.push(32);
    v.push(107);
    v.push(101);
    v.push(121);
    v
}

/// Derive a 32-byte symmetric key from a base64-encoded shared secret by
/// HKDF-SHA-256 expansion under the fixed info string, and return it
/// base64-encoded.
///
/// HKDF is deterministic, so the success case is pinned exactly; the one
/// error comes if and only if the input is not canonical base64. Any decoded
/// length is accepted, as HKDF takes keying material of any length.
pub fn derive_aes_key(shared_secret_b64: String) -> (r: Result<String, KemError>)
    ensures
        b64_decoded_of(shared_secret_b64@) is None ==> r == Err::<String, KemError>(
            KemError::BadSharedSecretEncoding,
        ),
        b64_decoded_of(shared_secret_b64@) matches Some(ss) ==> (r matches Ok(k) && k@ == b64_of(
            hkdf_sha256_okm32(ss, kdf_info_spec()),
        )),
{
    let ss = match b64_decode(shared_secret_b64.as_str()) {
        Some(v) => v,
        None => {
            return Err(KemError::BadSharedSecretEncoding);
        },
    };
    let info = kdf_info();
    let okm = crate::kdf::hkdf_expand32(ss.as_slice(), info.as_slice());
    Ok(b64_encode(okm.as_slice()))
}

} // verus!
