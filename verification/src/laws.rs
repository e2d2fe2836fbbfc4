//! The guarantees the service gives, proved once and for all.

use crate::codec::base64_decoding;
use crate::ids::uuid_accepts;
use crate::page::{
    escape_char, escape_free, escaped, lemma_escaped_identity, page_after_key, page_before_key,
    record_page, share_url_text,
};
use crate::service::{show_outcome, ShowOutcome};
use crate::store::RecordData;
use crate::text::{
    all_base64, contains_text, ends_with, has_space_or_control, is_base64_char, is_space,
    lemma_contains_middle, trim_back, trim_front, trimmed,
};
use crate::validate::{key_check, note_check, ValidationError};
use vstd::prelude::*;
use vstd::utf8::encode_utf8;

verus! {

/// Every accepted public key is the trimmed submission, is Base64 text,
/// and decodes to exactly 32 bytes.
pub proof fn lemma_accepted_key_decodes(raw: Seq<char>)
    requires
        key_check(raw) is Ok,
    ensures
        key_check(raw) matches Ok(k) && k == trimmed(raw) && all_base64(k) && (
        base64_decoding(k) matches Some(b) && b.len() == 32),
{
}

/// A key whose trimmed text still holds whitespace or a control character
/// is rejected for exactly that reason; the publish handler then answers
/// 400 and leaves the store unchanged.
pub proof fn lemma_stray_characters_rejected(raw: Seq<char>)
    requires
        has_space_or_control(trimmed(raw)),
    ensures
        key_check(raw) == Err::<Seq<char>, ValidationError>(ValidationError::InvalidChars),
{
}

/// A key that decodes to anything but 32 bytes is never accepted; where
/// the earlier rules pass, the reason is precisely the decoded length.
pub proof fn lemma_wrong_length_rejected(raw: Seq<char>)
    requires
        base64_decoding(trimmed(raw)) matches Some(b) && b.len() != 32,
    ensures
        key_check(raw) is Err,
        trimmed(raw).len() > 0 && !has_space_or_control(trimmed(raw)) && encode_utf8(
            trimmed(raw),
        ).len() <= 1000 && all_base64(trimmed(raw)) ==> key_check(raw) == Err::<
            Seq<char>,
            ValidationError,
        >(ValidationError::WrongKeyLength),
{
}

/// A note whose trimmed text exceeds 100 bytes is rejected as too long.
pub proof fn lemma_long_note_rejected(raw: Seq<char>)
    requires
        encode_utf8(trimmed(raw)).len() > 100,
    ensures
        note_check(Option::Some(raw)) == Err::<Option<Seq<char>>, ValidationError>(
            ValidationError::TooLong,
        ),
{
    if trimmed(raw).len() == 0 {
        assert(encode_utf8(trimmed(raw)).len() == 0);
    }
}

/// A note of nothing but whitespace is stored as absent.
pub proof fn lemma_blank_note_stored_absent(raw: Seq<char>)
    requires
        forall|i: int| 0 <= i < raw.len() ==> is_space(raw[i]),
    ensures
        note_check(Option::Some(raw)) == Ok::<Option<Seq<char>>, ValidationError>(Option::None),
{
    lemma_all_space_trims_empty(raw);
}

proof fn lemma_all_space_trims_empty(raw: Seq<char>)
    requires
        forall|i: int| 0 <= i < raw.len() ==> is_space(raw[i]),
    ensures
        trimmed(raw).len() == 0,
{
    lemma_trim_front_all_space(raw);
    assert(trim_back(Seq::<char>::empty()).len() == 0);
}

proof fn lemma_trim_front_all_space(raw: Seq<char>)
    requires
        forall|i: int| 0 <= i < raw.len() ==> is_space(raw[i]),
    ensures
        trim_front(raw) == Seq::<char>::empty(),
    decreases raw.len(),
{
    if raw.len() > 0 {
        assert(is_space(raw[0]));
        lemma_trim_front_all_space(raw.drop_first());
    } else {
        assert(raw =~= Seq::<char>::empty());
    }
}

/// Reading is stable: a record page never changes once published, since
/// rendering depends only on the stored row, and a later publish under a
/// distinct fresh id leaves an existing id's response untouched.
pub proof fn lemma_read_unchanged_by_publish(
    table: Map<Seq<char>, RecordData>,
    id: Seq<char>,
    host: Seq<char>,
    new_id: Seq<char>,
    data: RecordData,
)
    requires
        new_id != id,
    ensures
        show_outcome(table.insert(new_id, data), id, host) == show_outcome(table, id, host),
{
    let t2 = table.insert(new_id, data);
    assert(t2.contains_key(id) == table.contains_key(id));
    if table.contains_key(id) {
        assert(t2[id] == table[id]);
    }
}

/// Base64 text is free of the characters that HTML escaping rewrites.
pub proof fn lemma_base64_escape_free(s: Seq<char>)
    requires
        all_base64(s),
    ensures
        escape_free(s),
{
    assert forall|i: int| 0 <= i < s.len() implies #[trigger] escape_char(s[i]) == seq![s[i]] by {
        assert(is_base64_char(s[i]));
    }
}

/// Round trip: once a valid key is stored, its page shows the key text
/// verbatim and carries the shareable address, which ends in `/k/`
/// followed by the record's id.
pub proof fn lemma_published_key_shown_verbatim(
    table: Map<Seq<char>, RecordData>,
    id: Seq<char>,
    data: RecordData,
    host: Seq<char>,
)
    requires
        all_base64(data.key),
        uuid_accepts(id),
        escape_free(host),
        escape_free(id),
    ensures
        ({
            let url = share_url_text(host, id);
            let out = show_outcome(table.insert(id, data), id, host);
            &&& out matches ShowOutcome::Page { html } && contains_text(html, data.key)
                && contains_text(html, url)
            &&& ends_with(url, "/k/"@ + id)
        }),
{
    let t2 = table.insert(id, data);
    assert(t2[id] == data);
    let url = share_url_text(host, id);
    let html = record_page(id, data.key, data.note, Option::Some(url));

    lemma_base64_escape_free(data.key);
    lemma_escaped_identity(data.key);
    assert(html == page_before_key(id) + data.key + page_after_key(
        data.note,
        Option::Some(url),
    ));
    lemma_contains_middle(page_before_key(id), data.key, page_after_key(
        data.note,
        Option::Some(url),
    ));

    lemma_literal_pieces_escape_free();
    assert(escape_free(url)) by {
        assert forall|i: int| 0 <= i < url.len() implies #[trigger] escape_char(url[i])
            == seq![url[i]] by {
            let a = "https://"@;
            let b = "/k/"@;
            if i < a.len() {
                assert(url[i] == a[i]);
            } else if i < a.len() + host.len() {
                assert(url[i] == host[i - a.len()]);
            } else if i < a.len() + host.len() + b.len() {
                assert(url[i] == b[i - a.len() - host.len()]);
            } else {
                assert(url[i] == id[i - a.len() - host.len() - b.len()]);
            }
        }
    }
    lemma_escaped_identity(url);

    let front = page_before_key(id) + data.key + "</code></p>\n"@ + crate::page::note_block(
        data.note,
    ) + "\n"@ + "<p><strong>Shareable link:</strong> <a href=\""@;
    let back = "\">"@ + escaped(url) + "</a></p>"@
        + "\n<hr>\n<p>You can share this link with others so they can obtain your public key.</p>\n</body>\n</html>\n"@;
    assert(html =~= front + url + back);
    lemma_contains_middle(front, url, back);
    assert(contains_text(html, url));

    assert(ends_with(url, "/k/"@ + id)) by {
        let suffix = "/k/"@ + id;
        assert(url.subrange(url.len() - suffix.len(), url.len() as int) =~= suffix);
    }
}

proof fn lemma_literal_pieces_escape_free()
    ensures
        escape_free("https://"@),
        escape_free("/k/"@),
{
    reveal_strlit("https://");
    reveal_strlit("/k/");
    assert forall|i: int| 0 <= i < "https://"@.len() implies #[trigger] escape_char("https://"@[i])
        == seq!["https://"@[i]] by {
        let c = "https://"@[i];
        assert(c == 'h' || c == 't' || c == 'p' || c == 's' || c == ':' || c == '/');
    }
    assert forall|i: int| 0 <= i < "/k/"@.len() implies #[trigger] escape_char("/k/"@[i])
        == seq!["/k/"@[i]] by {
        let c = "/k/"@[i];
        assert(c == '/' || c == 'k');
    }
}

/// Two publishes that both succeed were stored under distinct ids, and
/// each record can afterwards be read back unchanged.
pub proof fn lemma_two_publishes_independent(
    table: Map<Seq<char>, RecordData>,
    id1: Seq<char>,
    d1: RecordData,
    id2: Seq<char>,
    d2: RecordData,
    host: Seq<char>,
)
    requires
        !table.contains_key(id1),
        !table.insert(id1, d1).contains_key(id2),
        uuid_accepts(id1),
        uuid_accepts(id2),
    ensures
        id1 != id2,
        ({
            let t2 = table.insert(id1, d1).insert(id2, d2);
            &&& t2.contains_key(id1) && t2[id1] == d1
            &&& t2.contains_key(id2) && t2[id2] == d2
            &&& show_outcome(t2, id1, host) == ShowOutcome::Page {
                html: record_page(id1, d1.key, d1.note, Option::Some(share_url_text(host, id1))),
            }
            &&& show_outcome(t2, id2, host) == ShowOutcome::Page {
                html: record_page(id2, d2.key, d2.note, Option::Some(share_url_text(host, id2))),
            }
        }),
{
}

} // verus!
