//! The three endpoints' decisions: publish a key, show a record.

use crate::ids::{fresh_record_id, uuid_accepts};
use crate::page::{build_record_page, record_page, share_url, share_url_text};
use crate::store::{KeyRecord, RecordData, Store};
use crate::text::opt_text;
use crate::validate::{
    key_check, note_check, validate_note, validate_public_key, validate_record_id, ValidationError,
};
use vstd::prelude::*;

verus! {

/// The plain-text reason sent with an HTTP 400 when a submitted key is
/// rejected for the given cause.
pub open spec fn key_reject_text(e: ValidationError) -> Seq<char> {
    match e {
        ValidationError::Empty => "public_key must not be empty"@,
        ValidationError::InvalidChars => "public_key cannot contain whitespace or control characters"@,
        ValidationError::TooLong => "public_key must be at most 1000 bytes"@,
        ValidationError::NotBase64 => "public_key must be valid base64"@,
        ValidationError::WrongKeyLength => "public_key must be base64 of a 32-byte key (ED25519)"@,
        ValidationError::InvalidId => "invalid record id (must be a UUID)"@,
    }
}

/// The plain-text reason sent with an HTTP 400 when a note is rejected.
pub open spec fn note_reject_text() -> Seq<char> {
    "note must be at most 100 bytes"@
}

/// The reason text for a rejected key.
pub fn key_reject_message(e: ValidationError) -> (r: &'static str)
    ensures
        r@ == key_reject_text(e),
{
    match e {
        ValidationError::Empty => "public_key must not be empty",
        ValidationError::InvalidChars => "public_key cannot contain whitespace or control characters",
        ValidationError::TooLong => "public_key must be at most 1000 bytes",
        ValidationError::NotBase64 => "public_key must be valid base64",
        ValidationError::WrongKeyLength => "public_key must be base64 of a 32-byte key (ED25519)",
        ValidationError::InvalidId => "invalid record id (must be a UUID)",
    }
}

/// What the publish endpoint answers.
pub enum PublishResponse {
    /// The record was stored under `id`; the client is redirected to
    /// `location`, which is `/k/` followed by the id.
    Redirect { id: String, location: String },
    /// A validator rejected the submission; answered as HTTP 400 with the
    /// reason.
    Invalid { why: ValidationError, reason: &'static str },
    /// The store refused the write; answered as HTTP 500.
    Failed,
}

impl PublishResponse {
    /// The HTTP status this response is sent with.
    pub fn status(&self) -> (code: u16)
        ensures
            self matches PublishResponse::Redirect { .. } <==> code == 303,
            self matches PublishResponse::Invalid { .. } <==> code == 400,
            self matches PublishResponse::Failed <==> code == 500,
    {
        match self {
            PublishResponse::Redirect { .. } => 303,
            PublishResponse::Invalid { .. } => 400,
            PublishResponse::Failed => 500,
        }
    }
}

/// What the record-display endpoint answers.
pub enum GetResponse {
    /// The record exists; its HTML page, answered as HTTP 200.
    Page { html: String },
    /// The path parameter is not a UUID; answered as HTTP 400.
    BadId,
    /// No record has this id; answered as HTTP 404.
    NotFound,
}

impl GetResponse {
    /// The HTTP status this response is sent with.
    pub fn status(&self) -> (code: u16)
        ensures
            self matches GetResponse::Page { .. } <==> code == 200,
            self matches GetResponse::BadId <==> code == 400,
            self matches GetResponse::NotFound <==> code == 404,
    {
        match self {
            GetResponse::Page { .. } => 200,
            GetResponse::BadId => 400,
            GetResponse::NotFound => 404,
        }
    }

    /// The plain-text body of a failure response; empty for a page, whose
    /// body is the page itself.
    pub fn message(&self) -> (r: &'static str)
        ensures
            self matches GetResponse::Page { .. } ==> r@ == ""@,
            self matches GetResponse::BadId ==> r@ == "invalid record id (must be a UUID)"@,
            self matches GetResponse::NotFound ==> r@ == "Key not found"@,
    {
        match self {
            GetResponse::Page { .. } => "",
            GetResponse::BadId => "invalid record id (must be a UUID)",
            GetResponse::NotFound => "Key not found",
        }
    }
}

/// What showing a record yields, as a function of the stored table, the
/// requested id and the configured host.
pub enum ShowOutcome {
    Page { html: Seq<char> },
    BadId,
    NotFound,
}

/// The record-display decision: reject a non-UUID id, report a missing
/// row, and otherwise render the record's page with its shareable link.
pub open spec fn show_outcome(
    table: Map<Seq<char>, RecordData>,
    id: Seq<char>,
    host: Seq<char>,
) -> ShowOutcome {
    if !uuid_accepts(id) {
        ShowOutcome::BadId
    } else if !table.contains_key(id) {
        ShowOutcome::NotFound
    } else {
        ShowOutcome::Page {
            html: record_page(
                id,
                table[id].key,
                table[id].note,
                Option::Some(share_url_text(host, id)),
            ),
        }
    }
}

/// Accept a submission: validate the key, then the note, store the record
/// under a fresh random id, and answer with a redirect to its page. The
/// store is left unchanged unless a redirect is answered.
pub fn handle_publish(store: &mut Store, public_key: &str, note: Option<String>) -> (r:
    PublishResponse)
    requires
        old(store).wf(),
    ensures
        final(store).wf(),
        (match key_check(public_key@) {
            Err(e) => final(store).table() == old(store).table() && (r
                matches PublishResponse::Invalid { why, reason } && why == e && reason@
                == key_reject_text(e)),
            Ok(k) => (match note_check(opt_text(note)) {
                Err(e) => final(store).table() == old(store).table() && (r
                    matches PublishResponse::Invalid { why, reason } && why == e && reason@
                    == note_reject_text()),
                Ok(n) => {
                    ||| (r matches PublishResponse::Redirect { id, location }
                        && uuid_accepts(id@)
                        && !old(store).table().contains_key(id@)
                        && location@ == "/k/"@ + id@
                        && final(store).table() == old(store).table().insert(
                        id@,
                        RecordData { key: k, note: n },
                    ))
                    ||| (r matches PublishResponse::Failed && final(store).table() == old(
                        store,
                    ).table())
                },
            }),
        }),
{
    let key = match validate_public_key(public_key) {
        Ok(k) => k,
        Err(e) => {
            return PublishResponse::Invalid { why: e, reason: key_reject_message(e) };
        },
    };
    let note_text = match validate_note(note) {
        Ok(n) => n,
        Err(e) => {
            return PublishResponse::Invalid { why: e, reason: "note must be at most 100 bytes" };
        },
    };
    let id = fresh_record_id();
    let mut location = String::new();
    location.append("/k/");
    location.append(id.as_str());
    let record = KeyRecord { id: id.clone(), public_key: key, note: note_text };
    match store.create(record) {
        Ok(_) => PublishResponse::Redirect { id, location },
        Err(_) => PublishResponse::Failed,
    }
}

/// Show a record: reject a non-UUID id before consulting the store,
/// answer 404 for an unknown id, and otherwise render the record's page.
pub fn show_record(store: &Store, id: &str, host: &str) -> (r: GetResponse)
    requires
        store.wf(),
    ensures
        (match r {
            GetResponse::Page { html } => show_outcome(store.table(), id@, host@)
                matches ShowOutcome::Page { html: h } && html@ == h,
            GetResponse::BadId => show_outcome(store.table(), id@, host@) is BadId,
            GetResponse::NotFound => show_outcome(store.table(), id@, host@) is NotFound,
        }),
{
    if validate_record_id(id).is_err() {
        return GetResponse::BadId;
    }
    match store.get(id) {
        Option::None => GetResponse::NotFound,
        Option::Some(record) => {
            let url = share_url(host, id);
            let html = build_record_page(record, Some(url.as_str()));
            GetResponse::Page { html }
        },
    }
}

} // verus!
