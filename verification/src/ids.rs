//! Record identifiers, trusted from the `uuid` crate.

use vstd::prelude::*;

verus! {

/// Does the text parse as a UUID?
pub uninterp spec fn uuid_accepts(s: Seq<char>) -> bool;

/// Relies on uuid's `Uuid::parse_str`: whether it accepts a string depends
/// on the characters of that string alone.
#[verifier::external_body]
pub(crate) fn parse_uuid(s: &str) -> (r: bool)
    ensures
        r == uuid_accepts(s@),
{
    uuid::Uuid::parse_str(s).is_ok()
}

/// Relies on uuid's `Uuid::new_v4` and the `Display` form of a UUID: the
/// identifier is random, but every outcome is canonical hyphenated text,
/// which `Uuid::parse_str` accepts.
#[verifier::external_body]
pub(crate) fn fresh_record_id() -> (r: String)
    ensures
        uuid_accepts(r@),
{
    uuid::Uuid::new_v4().to_string()
}

} // verus!
