//! HTML rendering of a published record, with contextual escaping.

use crate::store::KeyRecord;
use crate::text::{opt_str_text, opt_text};
use vstd::prelude::*;

verus! {

/// What a character becomes inside HTML text: the five significant
/// characters turn into entities, everything else stands as itself.
pub open spec fn escape_char(c: char) -> Seq<char> {
    if c == '<' {
        "&lt;"@
    } else if c == '>' {
        "&gt;"@
    } else if c == '&' {
        "&amp;"@
    } else if c == '"' {
        "&quot;"@
    } else if c == '\'' {
        "&#39;"@
    } else {
        seq![c]
    }
}

/// The text with every character HTML-escaped.
pub open spec fn escaped(s: Seq<char>) -> Seq<char>
    decreases s.len(),
{
    if s.len() == 0 {
        Seq::empty()
    } else {
        escaped(s.drop_last()) + escape_char(s.last())
    }
}

/// Characters that escaping leaves alone.
pub open spec fn escape_free(s: Seq<char>) -> bool {
    forall|i: int| 0 <= i < s.len() ==> #[trigger] escape_char(s[i]) == seq![s[i]]
}

/// Escaping changes nothing in text free of the five significant characters.
pub proof fn lemma_escaped_identity(s: Seq<char>)
    requires
        escape_free(s),
    ensures
        escaped(s) == s,
    decreases s.len(),
{
    if s.len() > 0 {
        assert(escape_char(s[s.len() - 1]) == seq![s.last()]);
        lemma_escaped_identity(s.drop_last());
        assert(s.drop_last() + seq![s.last()] =~= s);
    }
}

/// Escape text for inclusion in an HTML page.
pub fn html_escape(s: &str) -> (r: String)
    ensures
        r@ == escaped(s@),
{
    let n = s.unicode_len();
    let mut r = String::new();
    let mut i: usize = 0;
    while i < n
        invariant
            i <= n,
            n == s@.len(),
            r@ == escaped(s@.subrange(0, i as int)),
        decreases n - i,
    {
        let c = s.get_char(i);
        if c == '<' {
            r.append("&lt;");
        } else if c == '>' {
            r.append("&gt;");
        } else if c == '&' {
            r.append("&amp;");
        } else if c == '"' {
            r.append("&quot;");
        } else if c == '\'' {
            r.append("&#39;");
        } else {
            r.push(c);
        }
        proof {
            let t = s@.subrange(0, i + 1 as int);
            assert(t.drop_last() =~= s@.subrange(0, i as int));
            assert(seq![c] =~= Seq::empty().push(c));
            assert(r@ == escaped(t));
        }
        i += 1;
    }
    proof {
        assert(s@.subrange(0, n as int) =~= s@);
    }
    r
}

/// The absolute shareable address of a record on the given host.
pub open spec fn share_url_text(host: Seq<char>, id: Seq<char>) -> Seq<char> {
    "https://"@ + host + "/k/"@ + id
}

/// Build the shareable address shown on a record's page.
pub fn share_url(host: &str, id: &str) -> (r: String)
    ensures
        r@ == share_url_text(host@, id@),
{
    let mut r = String::new();
    r.append("https://");
    r.append(host);
    r.append("/k/");
    r.append(id);
    r
}

/// The note paragraph: the escaped note, or a placeholder when absent.
pub open spec fn note_block(note: Option<Seq<char>>) -> Seq<char> {
    match note {
        Option::Some(n) => "<p><strong>Note:</strong> "@ + escaped(n) + "</p>"@,
        Option::None => "<p><em>No note provided.</em></p>"@,
    }
}

/// The shareable-link paragraph, empty when no address is given.
pub open spec fn link_block(url: Option<Seq<char>>) -> Seq<char> {
    match url {
        Option::Some(u) => "<p><strong>Shareable link:</strong> <a href=\""@ + escaped(u) + "\">"@
            + escaped(u) + "</a></p>"@,
        Option::None => Seq::empty(),
    }
}

/// Everything on the record page before the escaped key.
pub open spec fn page_before_key(id: Seq<char>) -> Seq<char> {
    "<!doctype html>\n<html lang=\"en\">\n<head>\n<meta charset=\"utf-8\">\n<title>Published Key "@
        + id
        + "</title>\n</head>\n<body>\n<h1>Published Signing Public Key</h1>\n<p><strong>ID:</strong> "@
        + id + "</p>\n<p><strong>Public key:</strong><br><code>"@
}

/// Everything on the record page after the escaped key.
pub open spec fn page_after_key(note: Option<Seq<char>>, url: Option<Seq<char>>) -> Seq<char> {
    "</code></p>\n"@ + note_block(note) + "\n"@ + link_block(url)
        + "\n<hr>\n<p>You can share this link with others so they can obtain your public key.</p>\n</body>\n</html>\n"@
}

/// The whole HTML page for a record: its id, its key and note escaped, and
/// the shareable address when one is given.
pub open spec fn record_page(
    id: Seq<char>,
    key: Seq<char>,
    note: Option<Seq<char>>,
    url: Option<Seq<char>>,
) -> Seq<char> {
    page_before_key(id) + escaped(key) + page_after_key(note, url)
}

/// Render the HTML page showing a stored record.
pub fn build_record_page(record: &KeyRecord, full_url: Option<&str>) -> (r: String)
    ensures
        r@ == record_page(
            record.id@,
            record.public_key@,
            opt_text(record.note),
            opt_str_text(full_url),
        ),
{
    let mut page = String::new();
    page.append(
        "<!doctype html>\n<html lang=\"en\">\n<head>\n<meta charset=\"utf-8\">\n<title>Published Key ",
    );
    page.append(record.id.as_str());
    page.append(
        "</title>\n</head>\n<body>\n<h1>Published Signing Public Key</h1>\n<p><strong>ID:</strong> ",
    );
    page.append(record.id.as_str());
    page.append("</p>\n<p><strong>Public key:</strong><br><code>");
    let escaped_key = html_escape(record.public_key.as_str());
    page.append(escaped_key.as_str());
    page.append("</code></p>\n");
    match &record.note {
        Option::Some(n) => {
            page.append("<p><strong>Note:</strong> ");
            let escaped_note = html_escape(n.as_str());
            page.append(escaped_note.as_str());
            page.append("</p>");
        },
        Option::None => {
            page.append("<p><em>No note provided.</em></p>");
        },
    }
    page.append("\n");
    match full_url {
        Option::Some(u) => {
            let escaped_url = html_escape(u);
            page.append("<p><strong>Shareable link:</strong> <a href=\"");
            page.append(escaped_url.as_str());
            page.append("\">");
            page.append(escaped_url.as_str());
            page.append("</a></p>");
        },
        Option::None => {},
    }
    page.append(
        "\n<hr>\n<p>You can share this link with others so they can obtain your public key.</p>\n</body>\n</html>\n",
    );
    proof {
        assert(page@ =~= record_page(
            record.id@,
            record.public_key@,
            opt_text(record.note),
            opt_str_text(full_url),
        ));
    }
    page
}

} // verus!
