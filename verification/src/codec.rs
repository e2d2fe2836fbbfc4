//! Base64 decoding, trusted from the `base64` crate.

use base64::Engine;
use vstd::prelude::*;

verus! {

/// The byte sequence that decoding the text as standard Base64 yields,
/// or `None` where the text is not valid Base64.
pub uninterp spec fn base64_decoding(s: Seq<char>) -> Option<Seq<u8>>;

/// Relies on base64's `Engine::decode` with the `STANDARD` engine: whether
/// decoding succeeds, and which bytes it yields, depend on the input text
/// alone.
#[verifier::external_body]
pub(crate) fn base64_decode(s: &str) -> (r: Option<Vec<u8>>)
    ensures
        r is Some <==> base64_decoding(s@) is Some,
        r matches Some(v) ==> base64_decoding(s@) matches Some(d) && v@ == d,
{
    match base64::engine::general_purpose::STANDARD.decode(s) {
        Ok(bytes) => Some(bytes),
        Err(_) => None,
    }
}

} // verus!
