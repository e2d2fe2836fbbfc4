//! The validation rules for submitted keys, notes and record ids.

use crate::codec::{base64_decode, base64_decoding};
use crate::ids::{parse_uuid, uuid_accepts};
use crate::text::{
    all_base64, has_space_or_control, opt_text, scan_all_base64, scan_space_or_control, trim,
    trimmed,
};
use vstd::prelude::*;
use vstd::utf8::encode_utf8;

verus! {

/// Why a submitted value was rejected. Every rejection answers HTTP 400.
#[derive(Clone, Copy, Debug, PartialEq, Eq, Structural)]
pub enum ValidationError {
    /// The key is empty once trimmed.
    Empty,
    /// The trimmed key still holds whitespace or a control character.
    InvalidChars,
    /// The trimmed value exceeds its byte budget (1000 for a key, 100 for a note).
    TooLong,
    /// The key is not valid standard Base64 text.
    NotBase64,
    /// The key is Base64, but does not decode to exactly 32 bytes.
    WrongKeyLength,
    /// A record id in the request path is not a UUID.
    InvalidId,
}

/// What validating a submitted public key yields: the trimmed key text,
/// or the first rule it breaks. The rules are checked in a fixed order:
/// emptiness, stray characters, byte length, Base64 shape, decoded length.
pub open spec fn key_check(raw: Seq<char>) -> Result<Seq<char>, ValidationError> {
    let t = trimmed(raw);
    if t.len() == 0 {
        Err(ValidationError::Empty)
    } else if has_space_or_control(t) {
        Err(ValidationError::InvalidChars)
    } else if encode_utf8(t).len() > 1000 {
        Err(ValidationError::TooLong)
    } else if !all_base64(t) {
        Err(ValidationError::NotBase64)
    } else {
        match base64_decoding(t) {
            Option::None => Err(ValidationError::NotBase64),
            Option::Some(b) => if b.len() == 32 {
                Ok(t)
            } else {
                Err(ValidationError::WrongKeyLength)
            },
        }
    }
}

/// What validating an optional note yields: the trimmed note, normalized
/// to absent when nothing but whitespace was submitted, or `TooLong` when
/// the trimmed note exceeds 100 bytes.
pub open spec fn note_check(raw: Option<Seq<char>>) -> Result<Option<Seq<char>>, ValidationError> {
    match raw {
        Option::None => Ok(Option::None),
        Option::Some(n) => {
            let t = trimmed(n);
            if t.len() == 0 {
                Ok(Option::None)
            } else if encode_utf8(t).len() > 100 {
                Err(ValidationError::TooLong)
            } else {
                Ok(Option::Some(t))
            }
        },
    }
}

/// Validate a submitted public key: trim it, then require it to be
/// non-empty, free of whitespace and control characters, at most 1000
/// bytes, and standard Base64 text that decodes to exactly 32 bytes.
pub fn validate_public_key(raw: &str) -> (r: Result<String, ValidationError>)
    ensures
        (match key_check(raw@) {
            Ok(k) => r matches Ok(s) && s@ == k,
            Err(e) => r matches Err(e2) && e2 == e,
        }),
{
    let t = trim(raw);
    if t.as_str().is_empty() {
        return Err(ValidationError::Empty);
    }
    if scan_space_or_control(t.as_str()) {
        return Err(ValidationError::InvalidChars);
    }
    if t.as_str().as_bytes().len() > 1000 {
        return Err(ValidationError::TooLong);
    }
    if !scan_all_base64(t.as_str()) {
        return Err(ValidationError::NotBase64);
    }
    match base64_decode(t.as_str()) {
        Option::None => Err(ValidationError::NotBase64),
        Option::Some(bytes) => {
            if bytes.len() == 32 {
                Ok(t)
            } else {
                Err(ValidationError::WrongKeyLength)
            }
        },
    }
}

/// Validate an optional note: trim it, store an all-whitespace note as
/// absent, and reject a trimmed note of more than 100 bytes.
pub fn validate_note(raw: Option<String>) -> (r: Result<Option<String>, ValidationError>)
    ensures
        (match note_check(opt_text(raw)) {
            Ok(n) => r matches Ok(v) && opt_text(v) == n,
            Err(e) => r matches Err(e2) && e2 == e,
        }),
{
    match raw {
        Option::None => Ok(Option::None),
        Option::Some(n) => {
            let t = trim(n.as_str());
            if t.as_str().is_empty() {
                Ok(Option::None)
            } else if t.as_str().as_bytes().len() > 100 {
                Err(ValidationError::TooLong)
            } else {
                Ok(Option::Some(t))
            }
        },
    }
}

/// Validate a record id taken from the request path: it must parse as a
/// UUID; anything else is rejected before the store is consulted.
pub fn validate_record_id(raw: &str) -> (r: Result<(), ValidationError>)
    ensures
        r is Ok <==> uuid_accepts(raw@),
        r is Err ==> r == Err::<(), ValidationError>(ValidationError::InvalidId),
{
    if parse_uuid(raw) {
        Ok(())
    } else {
        Err(ValidationError::InvalidId)
    }
}

} // verus!
