//! The pattern by which the upload session id is recognised in script text.
use vstd::prelude::*;

verus! {

/// The regular expression that finds the upload session id: a single-quoted
/// upload path of the share's AJAX endpoint, with the id as capture group 1.
pub const SESSION_REGEX: &'static str = "'/ajax/u/d/[0-9a-f]{20}/upload/\\?r=([0-9a-f]{8}-[0-9a-f]{4}-[0-9a-f]{4}-[0-9a-f]{4}-[0-9a-f]{12})'";

/// Length of a whole match of `SESSION_REGEX`.
pub open spec fn match_len() -> int {
    79
}

/// Offset of the session id within a match.
pub open spec fn id_offset() -> int {
    42
}

pub open spec fn is_lower_hex(c: char) -> bool {
    ('0' <= c && c <= '9') || ('a' <= c && c <= 'f')
}

/// `n` lower-case hexadecimal digits stand in `t` from `from` on.
pub open spec fn hex_run(t: Seq<char>, from: int, n: int) -> bool {
    0 <= from && from + n <= t.len() && forall|k: int| from <= k < from + n ==> is_lower_hex(#[trigger] t[k])
}

/// A canonical lower-case UUID starts at `j`: groups of 8, 4, 4, 4 and 12
/// hexadecimal digits joined by hyphens.
pub open spec fn uuid_at(t: Seq<char>, j: int) -> bool {
    &&& 0 <= j && j + 36 <= t.len()
    &&& hex_run(t, j, 8)
    &&& t[j + 8] == '-'
    &&& hex_run(t, j + 9, 4)
    &&& t[j + 13] == '-'
    &&& hex_run(t, j + 14, 4)
    &&& t[j + 18] == '-'
    &&& hex_run(t, j + 19, 4)
    &&& t[j + 23] == '-'
    &&& hex_run(t, j + 24, 12)
}

/// `u` is exactly a canonical lower-case UUID.
pub open spec fn is_uuid_shape(u: Seq<char>) -> bool {
    u.len() == 36 && uuid_at(u, 0)
}

pub open spec fn ajax_prefix() -> Seq<char> {
    seq!['\'', '/', 'a', 'j', 'a', 'x', '/', 'u', '/', 'd', '/']
}

pub open spec fn upload_infix() -> Seq<char> {
    seq!['/', 'u', 'p', 'l', 'o', 'a', 'd', '/', '?', 'r', '=']
}

/// `SESSION_REGEX` matches `t` at offset `i`.
pub open spec fn session_match_at(t: Seq<char>, i: int) -> bool {
    &&& 0 <= i && i + match_len() <= t.len()
    &&& t.subrange(i, i + 11) == ajax_prefix()
    &&& hex_run(t, i + 11, 20)
    &&& t.subrange(i + 31, i + 42) == upload_infix()
    &&& uuid_at(t, i + id_offset())
    &&& t[i + 78] == '\''
}

/// The id captured by the first match of `SESSION_REGEX` at offset `i` or later.
pub open spec fn session_id_from(t: Seq<char>, i: int) -> Option<Seq<char>>
    decreases t.len() - i,
{
    if i < 0 || i + match_len() > t.len() {
        None
    } else if session_match_at(t, i) {
        Some(t.subrange(i + id_offset(), i + id_offset() + 36))
    } else {
        session_id_from(t, i + 1)
    }
}

/// The id captured by the leftmost match of `SESSION_REGEX` in `t`. Every match
/// of the pattern has the same length, so the leftmost-first match that the
/// regex engine reports is the one at the smallest offset.
pub open spec fn first_session_id(t: Seq<char>) -> Option<Seq<char>> {
    session_id_from(t, 0)
}

/// Relies on `regex::Regex::new` and `regex::Regex::captures`: `captures`
/// reports the leftmost-first match, and group 1 of `SESSION_REGEX` is the id.
#[verifier::external_body]
pub(crate) fn capture_session_id(pattern: &str, text: &str) -> (r: Option<String>)
    requires
        pattern@ == SESSION_REGEX@,
    ensures
        match first_session_id(text@) {
            Some(id) => r is Some && r->0@ == id,
            None => r is None,
        },
{
    let re = regex::Regex::new(pattern).ok()?;
    let caps = re.captures(text)?;
    caps.get(1).map(|m| m.as_str().to_string())
}

/// Every id that the pattern captures is a canonical lower-case UUID.
pub proof fn lemma_captured_id_is_uuid(t: Seq<char>, i: int)
    requires
        session_id_from(t, i) is Some,
    ensures
        is_uuid_shape(session_id_from(t, i)->0),
    decreases t.len() - i,
{
    if session_match_at(t, i) {
        let u = t.subrange(i + id_offset(), i + id_offset() + 36);
        assert forall|k: int| 0 <= k < 36 implies u[k] == t[i + id_offset() + k] by {}
        assert(uuid_at(u, 0));
    } else {
        lemma_captured_id_is_uuid(t, i + 1);
    }
}

/// The single-quoted upload path around `hex` (the share's 20-digit
/// placeholder) and `id`.
pub open spec fn quoted_upload_path(hex: Seq<char>, id: Seq<char>) -> Seq<char> {
    ajax_prefix() + hex + upload_infix() + id + seq!['\'']
}

/// A script text that is exactly a quoted upload path with a canonical UUID
/// yields that UUID, as it is written.
pub proof fn lemma_quoted_upload_path_matches(hex: Seq<char>, id: Seq<char>)
    requires
        hex.len() == 20,
        forall|k: int| 0 <= k < 20 ==> is_lower_hex(#[trigger] hex[k]),
        is_uuid_shape(id),
    ensures
        first_session_id(quoted_upload_path(hex, id)) == Some(id),
{
    let t = quoted_upload_path(hex, id);
    assert(t.len() == 79);
    assert(t.subrange(0, 11) =~= ajax_prefix());
    assert forall|k: int| 11 <= k < 31 implies is_lower_hex(#[trigger] t[k]) by {
        assert(t[k] == hex[k - 11]);
    }
    assert(t.subrange(31, 42) =~= upload_infix());
    assert forall|k: int| 42 <= k < 78 implies t[k] == id[k - 42] by {}
    assert(hex_run(id, 0, 8) && hex_run(id, 9, 4) && hex_run(id, 14, 4) && hex_run(id, 19, 4) && hex_run(id, 24, 12));
    assert(uuid_at(t, 42));
    assert(session_match_at(t, 0));
    assert(t.subrange(42, 78) =~= id);
}

} // verus!
