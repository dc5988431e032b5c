//! HKDF-SHA-256 expansion of a shared secret into a 32-byte symmetric key,
//! through a trusted wrapper around the `hkdf` crate.

use vstd::prelude::*;
use hkdf::Hkdf;
use sha2::Sha256;

verus! {

/// What HKDF-SHA-256 (extract with an absent salt, then expand) produces as
/// its first 32 output bytes for an input keying material and an info
/// string. HKDF is deterministic, so the result is a function of the two
/// buffers alone.
pub uninterp spec fn hkdf_sha256_okm32(ikm: Seq<u8>, info: Seq<u8>) -> Seq<u8>;

/// Relies on `hkdf::Hkdf::<Sha256>::new` with an absent salt and
/// `Hkdf::expand`: `expand` fails only when more than `255 * 32` output
/// bytes are asked for, so filling a 32-byte buffer always succeeds, and the
/// output depends on the keying material and the info string alone.
#[verifier::external_body]
pub(crate) fn hkdf_expand32(ikm: &[u8], info: &[u8]) -> (r: Vec<u8>)
    ensures
        r@ == hkdf_sha256_okm32(ikm@, info@),
        r@.len() == crate::DERIVED_KEY_LEN as nat,
{
    let hk = Hkdf::<Sha256>::new(None, ikm);
    let mut okm = [0u8; 32];
    hk.expand(info, &mut okm).unwrap();
    okm.to_vec()
}

} // verus!
