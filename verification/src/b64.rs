//! Standard base64 encoding and decoding, through trusted wrappers around
//! the `base64` crate's `STANDARD` engine (padded alphabet, canonical
//! decoding).

use vstd::prelude::*;
use base64::Engine;

verus! {

/// What the `STANDARD` engine's `encode` returns for a byte buffer: the
/// canonical padded base64 encoding, a function of the bytes alone.
pub uninterp spec fn b64_of(b: Seq<u8>) -> Seq<char>;

/// What the `STANDARD` engine's `decode` returns for a string: the decoded
/// bytes, or `None` where the string is not canonical padded base64. A
/// function of the string alone.
pub uninterp spec fn b64_decoded_of(s: Seq<char>) -> Option<Seq<u8>>;

/// Length of the padded base64 encoding of an `n`-byte buffer: four
/// characters for every started group of three bytes.
pub open spec fn b64_len(n: nat) -> nat {
    4 * ((n + 2) / 3)
}

/// The string is the standard base64 encoding of some buffer of `n` bytes.
pub open spec fn is_b64_of_len(s: Seq<char>, n: nat) -> bool {
    exists|b: Seq<u8>| #[trigger] b64_of(b) == s && b.len() == n
}

/// Relies on `base64::engine::general_purpose::STANDARD.encode`: it returns
/// the canonical padded encoding of the input, whose length is
/// `4 * ceil(len / 3)`, and decoding that string with the same engine gives
/// the input back. It panics only when that length overflows `usize`, which
/// the precondition rules out.
#[verifier::external_body]
pub(crate) fn b64_encode(b: &[u8]) -> (r: String)
    requires
        b64_len(b@.len()) <= usize::MAX,
    ensures
        r@ == b64_of(b@),
        r@.len() == b64_len(b@.len()),
        b64_decoded_of(r@) == Some(b@),
{
    base64::engine::general_purpose::STANDARD.encode(b)
}

/// Relies on `base64::engine::general_purpose::STANDARD.decode`: it decodes
/// canonical padded base64 and rejects anything else, deterministically in
/// the input string alone.
#[verifier::external_body]
pub(crate) fn b64_decode(s: &str) -> (r: Option<Vec<u8>>)
    ensures
        r is Some <==> b64_decoded_of(s@) is Some,
        r matches Some(d) ==> Some(d@) == b64_decoded_of(s@),
{
    base64::engine::general_purpose::STANDARD.decode(s).ok()
}

} // verus!
