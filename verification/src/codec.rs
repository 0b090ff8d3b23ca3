//! Base64, decoded by the `base64` crate.

use vstd::prelude::*;
use vstd::string::*;
use base64::Engine;

verus! {

/// What the standard engine of `base64` (standard alphabet, canonical
/// padding required) decodes a text to: the bytes, or its error, displayed.
pub uninterp spec fn base64_decoded(text: Seq<char>) -> Result<Seq<u8>, Seq<char>>;

/// The outcome of decoding as plain values.
pub open spec fn decoded_view(r: Result<Vec<u8>, String>) -> Result<Seq<u8>, Seq<char>> {
    match r {
        Ok(bytes) => Ok(bytes@),
        Err(e) => Err(e@),
    }
}

/// Calls `Engine::decode` on `base64::engine::general_purpose::STANDARD`.
/// Trusted: the result is a function of the text alone, named
/// `base64_decoded`.
#[verifier::external_body]
pub(crate) fn decode_base64(text: &str) -> (r: Result<Vec<u8>, String>)
    ensures
        decoded_view(r) == base64_decoded(text@),
{
    match base64::engine::general_purpose::STANDARD.decode(text) {
        Ok(bytes) => Ok(bytes),
        Err(e) => Err(e.to_string()),
    }
}

} // verus!
