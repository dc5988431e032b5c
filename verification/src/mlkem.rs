//! The ML-KEM-768 primitive operations, through trusted wrappers around the
//! `ml_kem` crate. Keys, ciphertexts and shared secrets cross the boundary
//! as plain byte vectors of the fixed ML-KEM-768 sizes.

use vstd::prelude::*;
use ml_kem::kem::{Decapsulate, Encapsulate};
use ml_kem::{EncodedSizeUser, KemCore, MlKem768};
use rand_core::OsRng;

verus! {

/// What ML-KEM-768 decapsulation returns for a ciphertext and an encoded
/// decapsulation key. Decapsulation draws no randomness (implicit rejection
/// covers a mismatched ciphertext), so the result is a function of the two
/// buffers alone.
pub uninterp spec fn mlkem768_decap_of(ct: Seq<u8>, dk: Seq<u8>) -> Seq<u8>;

/// Relies on `ml_kem::MlKem768::generate` and `EncodedSizeUser::as_bytes`:
/// the encoded encapsulation key has 1184 bytes and the encoded
/// decapsulation key 2400, the ML-KEM-768 parameter set's sizes. The keys
/// come from the operating system's randomness, so nothing more is stated.
#[verifier::external_body]
pub(crate) fn mlkem768_generate() -> (r: (Vec<u8>, Vec<u8>))
    ensures
        r.0@.len() == crate::ENCAP_KEY_LEN as nat,
        r.1@.len() == crate::DECAP_KEY_LEN as nat,
{
    let (dk, ek) = MlKem768::generate(&mut OsRng);
    (ek.as_bytes().to_vec(), dk.as_bytes().to_vec())
}

/// Relies on `EncapsulationKey::from_bytes`, which accepts any 1184-byte
/// buffer, and `kem::Encapsulate::encapsulate`, which never fails (its error
/// type is trivial and it always returns `Ok`): the ciphertext has 1088
/// bytes and the shared secret 32. Encapsulation is randomized, so nothing
/// more is stated.
#[verifier::external_body]
pub(crate) fn mlkem768_encapsulate(ek: &[u8]) -> (r: (Vec<u8>, Vec<u8>))
    requires
        ek@.len() == crate::ENCAP_KEY_LEN as nat,
    ensures
        r.0@.len() == crate::CIPHERTEXT_LEN as nat,
        r.1@.len() == crate::SHARED_SECRET_LEN as nat,
{
    let ek = <MlKem768 as KemCore>::EncapsulationKey::from_bytes(
        ek.try_into().unwrap(),
    );
    let (ct, ss) = ek.encapsulate(&mut OsRng).unwrap();
    (ct.to_vec(), ss.to_vec())
}

/// Relies on `DecapsulationKey::from_bytes`, which accepts any 2400-byte
/// buffer, and `kem::Decapsulate::decapsulate`, which is infallible and
/// deterministic: the shared secret has 32 bytes and depends on the
/// ciphertext and key buffers alone.
#[verifier::external_body]
pub(crate) fn mlkem768_decapsulate(ct: &[u8], dk: &[u8]) -> (r: Vec<u8>)
    requires
        ct@.len() == crate::CIPHERTEXT_LEN as nat,
        dk@.len() == crate::DECAP_KEY_LEN as nat,
    ensures
        r@ == mlkem768_decap_of(ct@, dk@),
        r@.len() == crate::SHARED_SECRET_LEN as nat,
{
    let dk = <MlKem768 as KemCore>::DecapsulationKey::from_bytes(
        dk.try_into().unwrap(),
    );
    let ss = dk.decapsulate(ct.try_into().unwrap()).unwrap();
    ss.to_vec()
}

} // verus!
