//! Character classes and trimming for submitted text.

use vstd::prelude::*;

verus! {

/// The Unicode `White_Space` code points: the characters that trimming
/// removes and that a public key must not contain.
pub open spec fn is_space(c: char) -> bool {
    let u = c as u32;
    (0x09 <= u && u <= 0x0D) || u == 0x20 || u == 0x85 || u == 0xA0 || u == 0x1680 || (0x2000
        <= u && u <= 0x200A) || u == 0x2028 || u == 0x2029 || u == 0x202F || u == 0x205F || u
        == 0x3000
}

/// The control characters (the C0 and C1 ranges), also banned from keys.
pub open spec fn is_control(c: char) -> bool {
    let u = c as u32;
    u <= 0x1F || (0x7F <= u && u <= 0x9F)
}

/// The characters that standard Base64 text may consist of:
/// letters, digits, `+`, `/` and the padding `=`.
pub open spec fn is_base64_char(c: char) -> bool {
    let u = c as u32;
    (0x41 <= u && u <= 0x5A)  // 'A'..'Z'
     || (0x61 <= u && u <= 0x7A)  // 'a'..'z'
     || (0x30 <= u && u <= 0x39)  // '0'..'9'
     || u == 0x2B  // '+'
     || u == 0x2F  // '/'
     || u == 0x3D  // '='

}

pub open spec fn all_base64(s: Seq<char>) -> bool {
    forall|i: int| 0 <= i < s.len() ==> is_base64_char(s[i])
}

pub open spec fn has_space_or_control(s: Seq<char>) -> bool {
    exists|i: int| 0 <= i < s.len() && (is_space(s[i]) || is_control(s[i]))
}

pub fn space_char(c: char) -> (b: bool)
    ensures
        b == is_space(c),
{
    let u: u32 = c as u32;
    (0x09 <= u && u <= 0x0D) || u == 0x20 || u == 0x85 || u == 0xA0 || u == 0x1680 || (0x2000
        <= u && u <= 0x200A) || u == 0x2028 || u == 0x2029 || u == 0x202F || u == 0x205F || u
        == 0x3000
}

pub fn control_char(c: char) -> (b: bool)
    ensures
        b == is_control(c),
{
    let u: u32 = c as u32;
    u <= 0x1F || (0x7F <= u && u <= 0x9F)
}

pub fn base64_char(c: char) -> (b: bool)
    ensures
        b == is_base64_char(c),
{
    let u: u32 = c as u32;
    (0x41 <= u && u <= 0x5A) || (0x61 <= u && u <= 0x7A) || (0x30 <= u && u <= 0x39) || u == 0x2B
        || u == 0x2F || u == 0x3D
}

/// Does the text contain a whitespace or control character anywhere?
pub fn scan_space_or_control(s: &str) -> (b: bool)
    ensures
        b == has_space_or_control(s@),
{
    let n = s.unicode_len();
    let mut i: usize = 0;
    while i < n
        invariant
            i <= n,
            n == s@.len(),
            forall|k: int| 0 <= k < i ==> !(is_space(s@[k]) || is_control(s@[k])),
        decreases n - i,
    {
        let c = s.get_char(i);
        if space_char(c) || control_char(c) {
            return true;
        }
        i += 1;
    }
    false
}

/// Is every character of the text in the Base64 alphabet?
pub fn scan_all_base64(s: &str) -> (b: bool)
    ensures
        b == all_base64(s@),
{
    let n = s.unicode_len();
    let mut i: usize = 0;
    while i < n
        invariant
            i <= n,
            n == s@.len(),
            forall|k: int| 0 <= k < i ==> is_base64_char(s@[k]),
        decreases n - i,
    {
        if !base64_char(s.get_char(i)) {
            return false;
        }
        i += 1;
    }
    true
}

/// The view of an optional owned text.
pub open spec fn opt_text(n: Option<String>) -> Option<Seq<char>> {
    match n {
        Option::Some(s) => Option::Some(s@),
        Option::None => Option::None,
    }
}

/// The view of an optional borrowed text.
pub open spec fn opt_str_text(n: Option<&str>) -> Option<Seq<char>> {
    match n {
        Option::Some(s) => Option::Some(s@),
        Option::None => Option::None,
    }
}

/// Does `needle` occur somewhere inside `hay`?
pub open spec fn contains_text(hay: Seq<char>, needle: Seq<char>) -> bool {
    exists|i: int|
        0 <= i && i + needle.len() <= hay.len() && #[trigger] hay.subrange(i, i + needle.len())
            == needle
}

/// Does `s` end with `suffix`?
pub open spec fn ends_with(s: Seq<char>, suffix: Seq<char>) -> bool {
    s.len() >= suffix.len() && s.subrange(s.len() - suffix.len(), s.len() as int) == suffix
}

/// Anything of the shape `a + b + c` contains its middle part.
pub proof fn lemma_contains_middle(a: Seq<char>, b: Seq<char>, c: Seq<char>)
    ensures
        contains_text(a + b + c, b),
{
    let h = a + b + c;
    assert(h.subrange(a.len() as int, a.len() + b.len() as int) =~= b);
}

/// Relies on std's `String::push`: it appends the given character at the
/// end of the string.
pub assume_specification[ String::push ](s: &mut String, ch: char)
    ensures
        final(s)@ == old(s)@.push(ch),
;

/// The text with its leading whitespace removed.
pub open spec fn trim_front(s: Seq<char>) -> Seq<char>
    decreases s.len(),
{
    if s.len() > 0 && is_space(s[0]) {
        trim_front(s.drop_first())
    } else {
        s
    }
}

/// The text with its trailing whitespace removed.
pub open spec fn trim_back(s: Seq<char>) -> Seq<char>
    decreases s.len(),
{
    if s.len() > 0 && is_space(s.last()) {
        trim_back(s.drop_last())
    } else {
        s
    }
}

/// The text with whitespace removed from both ends.
pub open spec fn trimmed(s: Seq<char>) -> Seq<char> {
    trim_back(trim_front(s))
}

proof fn lemma_trim_front_range(s: Seq<char>, i: int)
    requires
        0 <= i <= s.len(),
        forall|k: int| 0 <= k < i ==> is_space(s[k]),
        i == s.len() || !is_space(s[i]),
    ensures
        trim_front(s) == s.subrange(i, s.len() as int),
    decreases i,
{
    if i == 0 {
        assert(s.subrange(0, s.len() as int) =~= s);
    } else {
        assert(is_space(s[0]));
        lemma_trim_front_range(s.drop_first(), i - 1);
        assert(s.drop_first().subrange(i - 1, s.drop_first().len() as int) =~= s.subrange(
            i,
            s.len() as int,
        ));
    }
}

proof fn lemma_trim_back_range(s: Seq<char>, j: int)
    requires
        0 <= j <= s.len(),
        forall|k: int| j <= k < s.len() ==> is_space(s[k]),
        j == 0 || !is_space(s[j - 1]),
    ensures
        trim_back(s) == s.subrange(0, j),
    decreases s.len() - j,
{
    if s.len() > 0 && is_space(s.last()) {
        assert(j < s.len());
        lemma_trim_back_range(s.drop_last(), j);
        assert(s.drop_last().subrange(0, j) =~= s.subrange(0, j));
    } else {
        assert(j == s.len());
        assert(s.subrange(0, j) =~= s);
    }
}

/// Remove whitespace from both ends of the text.
pub fn trim(s: &str) -> (r: String)
    ensures
        r@ == trimmed(s@),
{
    let n = s.unicode_len();
    let mut start: usize = 0;
    loop
        invariant
            start <= n,
            n == s@.len(),
            forall|k: int| 0 <= k < start ==> is_space(s@[k]),
        ensures
            start <= n,
            forall|k: int| 0 <= k < start ==> is_space(s@[k]),
            start == n || !is_space(s@[start as int]),
        decreases n - start,
    {
        if start >= n {
            break ;
        }
        if !space_char(s.get_char(start)) {
            break ;
        }
        start += 1;
    }
    let mut end: usize = n;
    loop
        invariant
            start <= end <= n,
            n == s@.len(),
            forall|k: int| end <= k < n ==> is_space(s@[k]),
        ensures
            start <= end <= n,
            forall|k: int| end <= k < n ==> is_space(s@[k]),
            end == start || !is_space(s@[end - 1]),
        decreases end,
    {
        if end <= start {
            break ;
        }
        if !space_char(s.get_char(end - 1)) {
            break ;
        }
        end -= 1;
    }
    let t = s.substring_char(start, end);
    proof {
        lemma_trim_front_range(s@, start as int);
        let f = s@.subrange(start as int, n as int);
        lemma_trim_back_range(f, end - start);
        assert(f.subrange(0, end - start) =~= s@.subrange(start as int, end as int));
    }
    t.to_owned()
}

} // verus!
