use keypub::page::{build_record_page, html_escape, share_url};
use keypub::service::{handle_publish, show_record, GetResponse, PublishResponse};
use keypub::store::{KeyRecord, Store, StoreError};
use keypub::validate::{
    validate_note, validate_public_key, validate_record_id, ValidationError,
};

// A Base64 encoding of 32 zero bytes, and one of the bytes 0..32.
const KEY_ZEROS: &str = "AAAAAAAAAAAAAAAAAAAAAAAAAAAAAAAAAAAAAAAAAAA=";
const KEY_COUNTING: &str = "AAECAwQFBgcICQoLDA0ODxAREhMUFRYXGBkaGxwdHh8=";
// Base64 of 16 bytes and of 33 bytes: well-formed, but the wrong length.
const KEY_16: &str = "AAAAAAAAAAAAAAAAAAAAAA==";
const KEY_33: &str = "AAAAAAAAAAAAAAAAAAAAAAAAAAAAAAAAAAAAAAAAAAAA";

fn publish(store: &mut Store, key: &str, note: Option<&str>) -> PublishResponse {
    handle_publish(store, key, note.map(|n| n.to_string()))
}

fn published_id(r: &PublishResponse) -> String {
    match r {
        PublishResponse::Redirect { id, location } => {
            assert_eq!(location, &format!("/k/{id}"));
            id.clone()
        }
        PublishResponse::Invalid { reason, .. } => panic!("rejected: {reason}"),
        PublishResponse::Failed => panic!("store failed"),
    }
}

fn rejection(r: &PublishResponse) -> (ValidationError, &'static str) {
    match r {
        PublishResponse::Invalid { why, reason } => (*why, *reason),
        _ => panic!("expected a rejection"),
    }
}

#[test]
fn accepts_a_valid_key() {
    assert_eq!(validate_public_key(KEY_ZEROS), Ok(KEY_ZEROS.to_string()));
    assert_eq!(validate_public_key(KEY_COUNTING), Ok(KEY_COUNTING.to_string()));
}

#[test]
fn trims_the_key_before_checking() {
    let padded = format!("  {KEY_ZEROS}\t\n");
    assert_eq!(validate_public_key(&padded), Ok(KEY_ZEROS.to_string()));
}

#[test]
fn rejects_an_empty_key() {
    assert_eq!(validate_public_key(""), Err(ValidationError::Empty));
    assert_eq!(validate_public_key("   \t "), Err(ValidationError::Empty));
}

#[test]
fn rejects_interior_whitespace_and_controls() {
    let spaced = format!("{} {}", &KEY_ZEROS[..20], &KEY_ZEROS[20..]);
    assert_eq!(validate_public_key(&spaced), Err(ValidationError::InvalidChars));
    let controlled = format!("{}\u{7}{}", &KEY_ZEROS[..20], &KEY_ZEROS[20..]);
    assert_eq!(validate_public_key(&controlled), Err(ValidationError::InvalidChars));
}

#[test]
fn rejects_an_oversized_key() {
    let long = "A".repeat(1001);
    assert_eq!(validate_public_key(&long), Err(ValidationError::TooLong));
}

#[test]
fn rejects_text_that_is_not_base64() {
    assert_eq!(validate_public_key("not-base-64!"), Err(ValidationError::NotBase64));
    // Alphabet characters, but an impossible Base64 shape.
    assert_eq!(validate_public_key("AAAAA"), Err(ValidationError::NotBase64));
}

#[test]
fn rejects_keys_of_the_wrong_decoded_length() {
    assert_eq!(validate_public_key(KEY_16), Err(ValidationError::WrongKeyLength));
    assert_eq!(validate_public_key(KEY_33), Err(ValidationError::WrongKeyLength));
}

#[test]
fn note_is_trimmed_and_blank_notes_vanish() {
    assert_eq!(validate_note(None), Ok(None));
    assert_eq!(validate_note(Some("".to_string())), Ok(None));
    assert_eq!(validate_note(Some("  \t\n ".to_string())), Ok(None));
    assert_eq!(
        validate_note(Some("  my signing key  ".to_string())),
        Ok(Some("my signing key".to_string()))
    );
}

#[test]
fn note_of_a_hundred_bytes_passes_longer_fails() {
    let exactly = "n".repeat(100);
    assert_eq!(validate_note(Some(exactly.clone())), Ok(Some(exactly)));
    let too_long = "n".repeat(101);
    assert_eq!(validate_note(Some(too_long)), Err(ValidationError::TooLong));
    // Surrounding whitespace does not count against the budget.
    let padded = format!("  {}  ", "n".repeat(100));
    assert_eq!(validate_note(Some(padded)), Ok(Some("n".repeat(100))));
}

#[test]
fn record_ids_must_be_uuids() {
    assert!(validate_record_id("550e8400-e29b-41d4-a716-446655440000").is_ok());
    assert_eq!(validate_record_id("not-a-uuid"), Err(ValidationError::InvalidId));
    assert_eq!(validate_record_id(""), Err(ValidationError::InvalidId));
}

#[test]
fn escaping_rewrites_the_five_significant_characters() {
    assert_eq!(
        html_escape("<script>\"a\" & 'b'</script>"),
        "&lt;script&gt;&quot;a&quot; &amp; &#39;b&#39;&lt;/script&gt;"
    );
    assert_eq!(html_escape("plain text"), "plain text");
}

#[test]
fn store_refuses_a_duplicate_id() {
    let mut store = Store::new();
    let record = |note: Option<&str>| KeyRecord {
        id: "550e8400-e29b-41d4-a716-446655440000".to_string(),
        public_key: KEY_ZEROS.to_string(),
        note: note.map(|n| n.to_string()),
    };
    assert_eq!(store.create(record(None)), Ok(()));
    assert_eq!(store.create(record(Some("other"))), Err(StoreError::Conflict));
    // The first row is untouched.
    let found = store.get("550e8400-e29b-41d4-a716-446655440000").unwrap();
    assert_eq!(found.note, None);
}

#[test]
fn store_get_finds_only_matching_ids() {
    let mut store = Store::new();
    assert!(store.get("550e8400-e29b-41d4-a716-446655440000").is_none());
    let r = publish(&mut store, KEY_ZEROS, None);
    let id = published_id(&r);
    assert!(store.get(&id).is_some());
    assert!(store.get("550e8400-e29b-41d4-a716-446655440000").is_none());
}

#[test]
fn publish_answers_a_redirect_under_a_fresh_uuid() {
    let mut store = Store::new();
    let r = publish(&mut store, KEY_ZEROS, Some("  my key  "));
    assert_eq!(r.status(), 303);
    let id = published_id(&r);
    assert!(validate_record_id(&id).is_ok());
    let row = store.get(&id).expect("the record was stored");
    assert_eq!(row.public_key, KEY_ZEROS);
    assert_eq!(row.note.as_deref(), Some("my key"));
}

#[test]
fn publish_rejections_carry_the_reason() {
    let mut store = Store::new();

    let r = publish(&mut store, " ", None);
    assert_eq!(r.status(), 400);
    let (why, reason) = rejection(&r);
    assert_eq!(why, ValidationError::Empty);
    assert_eq!(reason, "public_key must not be empty");

    let spaced = format!("{} {}", &KEY_ZEROS[..20], &KEY_ZEROS[20..]);
    let (why, reason) = rejection(&publish(&mut store, &spaced, None));
    assert_eq!(why, ValidationError::InvalidChars);
    assert_eq!(reason, "public_key cannot contain whitespace or control characters");

    let (why, reason) = rejection(&publish(&mut store, &"A".repeat(1001), None));
    assert_eq!(why, ValidationError::TooLong);
    assert_eq!(reason, "public_key must be at most 1000 bytes");

    let (why, reason) = rejection(&publish(&mut store, "@@@@", None));
    assert_eq!(why, ValidationError::NotBase64);
    assert_eq!(reason, "public_key must be valid base64");

    let (why, reason) = rejection(&publish(&mut store, KEY_16, None));
    assert_eq!(why, ValidationError::WrongKeyLength);
    assert_eq!(reason, "public_key must be base64 of a 32-byte key (ED25519)");

    let (why, reason) = rejection(&publish(&mut store, KEY_ZEROS, Some(&"n".repeat(101))));
    assert_eq!(why, ValidationError::TooLong);
    assert_eq!(reason, "note must be at most 100 bytes");

    // None of the rejected submissions left a row behind.
    assert!(matches!(
        show_record(&store, "550e8400-e29b-41d4-a716-446655440000", "example.org"),
        GetResponse::NotFound
    ));
}

#[test]
fn show_rejects_a_malformed_id_before_the_lookup() {
    let store = Store::new();
    let r = show_record(&store, "not-a-uuid", "example.org");
    assert!(matches!(r, GetResponse::BadId));
    assert_eq!(r.status(), 400);
    assert_eq!(r.message(), "invalid record id (must be a UUID)");
}

#[test]
fn show_reports_a_missing_row() {
    let store = Store::new();
    let r = show_record(&store, "550e8400-e29b-41d4-a716-446655440000", "example.org");
    assert!(matches!(r, GetResponse::NotFound));
    assert_eq!(r.status(), 404);
    assert_eq!(r.message(), "Key not found");
}

#[test]
fn published_key_round_trips_onto_its_page() {
    let mut store = Store::new();
    let id = published_id(&publish(&mut store, KEY_COUNTING, Some("team key")));
    let r = show_record(&store, &id, "keys.example.org");
    assert_eq!(r.status(), 200);
    let html = match r {
        GetResponse::Page { html } => html,
        _ => panic!("expected the record page"),
    };
    assert!(html.contains(KEY_COUNTING));
    assert!(html.contains(&id));
    assert!(html.contains("team key"));
    let url = format!("https://keys.example.org/k/{id}");
    assert!(html.contains(&url));
    assert!(url.ends_with(&format!("/k/{id}")));
}

#[test]
fn page_shows_a_placeholder_without_a_note() {
    let mut store = Store::new();
    let id = published_id(&publish(&mut store, KEY_ZEROS, Some("   ")));
    match show_record(&store, &id, "example.org") {
        GetResponse::Page { html } => {
            assert!(html.contains("<p><em>No note provided.</em></p>"));
        }
        _ => panic!("expected the record page"),
    }
}

#[test]
fn page_escapes_a_hostile_note() {
    let record = KeyRecord {
        id: "550e8400-e29b-41d4-a716-446655440000".to_string(),
        public_key: KEY_ZEROS.to_string(),
        note: Some("<script>alert('x')</script>".to_string()),
    };
    let html = build_record_page(&record, None);
    assert!(!html.contains("<script>alert"));
    assert!(html.contains("&lt;script&gt;alert(&#39;x&#39;)&lt;/script&gt;"));
}

#[test]
fn share_url_is_absolute_and_ends_with_the_id() {
    let url = share_url("example.org", "abc");
    assert_eq!(url, "https://example.org/k/abc");
}

#[test]
fn repeated_reads_return_the_same_page() {
    let mut store = Store::new();
    let id = published_id(&publish(&mut store, KEY_ZEROS, Some("stable")));
    let first = match show_record(&store, &id, "example.org") {
        GetResponse::Page { html } => html,
        _ => panic!("expected the record page"),
    };
    let second = match show_record(&store, &id, "example.org") {
        GetResponse::Page { html } => html,
        _ => panic!("expected the record page"),
    };
    assert_eq!(first, second);
    // A later publish does not disturb the existing record either.
    publish(&mut store, KEY_COUNTING, None);
    let third = match show_record(&store, &id, "example.org") {
        GetResponse::Page { html } => html,
        _ => panic!("expected the record page"),
    };
    assert_eq!(first, third);
}

#[test]
fn two_publishes_get_distinct_ids_and_both_are_readable() {
    let mut store = Store::new();
    let id1 = published_id(&publish(&mut store, KEY_ZEROS, None));
    let id2 = published_id(&publish(&mut store, KEY_COUNTING, None));
    assert_ne!(id1, id2);
    match show_record(&store, &id1, "example.org") {
        GetResponse::Page { html } => assert!(html.contains(KEY_ZEROS)),
        _ => panic!("first record must be readable"),
    }
    match show_record(&store, &id2, "example.org") {
        GetResponse::Page { html } => assert!(html.contains(KEY_COUNTING)),
        _ => panic!("second record must be readable"),
    }
}
