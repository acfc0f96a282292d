//! Ids, clocks and lookups shared by the handlers: reading a UUID from text,
//! writing one back, taking the current time, and turning a missing record
//! into a not-found answer.

use vstd::prelude::*;
use crate::error::ApiError;
use crate::random::new_uuid_v4;
use crate::text::{hex_digit, hex_of_u128, concat_str};

verus! {

/// `serde_json::Value`: a JSON document carried through unread (alarm details,
/// configurations, additional info).
#[verifier::external_type_specification]
#[verifier::external_body]
pub struct ExJsonValue(serde_json::Value);

/// What `uuid::Uuid::parse_str` gives for a text: the 128-bit value of the UUID it
/// reads, or `None` when the text is not one of the forms that parser accepts.
pub uninterp spec fn uuid_from_text(s: Seq<char>) -> Option<u128>;

/// `uuid::Uuid::parse_str(s)`, as a 128-bit value. The accepted forms (hyphenated,
/// simple, braced, URN) are the crate's; what comes back is named, not restated.
#[verifier::external_body]
pub(crate) fn parse_uuid(s: &str) -> (r: Option<u128>)
    ensures
        r == uuid_from_text(s@),
{
    match uuid::Uuid::parse_str(s) {
        Ok(u) => Some(u.as_u128()),
        Err(_) => None,
    }
}

/// The hyphenated lower-case form of a UUID: 32 hex digits in groups of 8-4-4-4-12.
pub open spec fn uuid_text(u: u128) -> Seq<char> {
    let h = hex_of_u128(u);
    h.subrange(0, 8) + seq!['-'] + h.subrange(8, 12) + seq!['-'] + h.subrange(12, 16) + seq!['-']
        + h.subrange(16, 20) + seq!['-'] + h.subrange(20, 32)
}

/// `uuid::Uuid::from_u128(u).to_string()`: the hyphenated lower-case form.
#[verifier::external_body]
pub(crate) fn uuid_to_string(u: u128) -> (r: String)
    ensures
        r@ == uuid_text(u),
{
    uuid::Uuid::from_u128(u).to_string()
}

/// `chrono::Utc::now().timestamp_millis()`: the wall clock in milliseconds since
/// the Unix epoch. Nothing is promised of the value.
#[verifier::external_body]
pub(crate) fn now_millis() -> (r: i64)
{
    chrono::Utc::now().timestamp_millis()
}

/// How `serde_json` writes one character inside a JSON string: `"` and `\\` and the
/// control characters are escaped (short forms for backspace, tab, line feed, form
/// feed and carriage return, `\\u00XX` with lower-case hex for the others).
pub open spec fn json_escape(c: char) -> Seq<char> {
    if c == '"' {
        seq!['\\', '"']
    } else if c == '\\' {
        seq!['\\', '\\']
    } else if c == '\u{8}' {
        seq!['\\', 'b']
    } else if c == '\t' {
        seq!['\\', 't']
    } else if c == '\n' {
        seq!['\\', 'n']
    } else if c == '\u{c}' {
        seq!['\\', 'f']
    } else if c == '\r' {
        seq!['\\', 'r']
    } else if (c as u32) < 0x20 {
        seq!['\\', 'u', '0', '0', hex_digit((c as u32 / 16) as int), hex_digit((c as u32 % 16) as int)]
    } else {
        seq![c]
    }
}

pub open spec fn json_escaped(s: Seq<char>) -> Seq<char>
    decreases s.len(),
{
    if s.len() == 0 {
        Seq::<char>::empty()
    } else {
        json_escaped(s.drop_last()) + json_escape(s.last())
    }
}

/// A text written as a JSON string.
pub open spec fn json_quoted(s: Seq<char>) -> Seq<char> {
    seq!['"'] + json_escaped(s) + seq!['"']
}

/// `serde_json::to_string` of a text: the text quoted and escaped. Serialising a
/// text into memory cannot fail.
#[verifier::external_body]
pub(crate) fn json_string(s: &str) -> (r: String)
    ensures
        r@ == json_quoted(s@),
{
    match serde_json::to_string(s) {
        Ok(t) => t,
        Err(_) => String::new(),
    }
}

/// A character that JSON writes as itself.
pub open spec fn json_plain(c: char) -> bool {
    (c as u32) >= 0x20 && c != '"' && c != '\\'
}

/// A text of plain characters is written between quotes as it is.
pub proof fn lemma_json_quoted_plain(s: Seq<char>)
    requires
        forall|i: int| 0 <= i < s.len() ==> json_plain(#[trigger] s[i]),
    ensures
        json_escaped(s) == s,
        json_quoted(s) == seq!['"'] + s + seq!['"'],
    decreases s.len(),
{
    if s.len() > 0 {
        lemma_json_quoted_plain(s.drop_last());
        assert(json_plain(s[s.len() - 1]));
        assert(json_escaped(s) =~= s);
    } else {
        assert(json_escaped(s) =~= s);
    }
}

/// The characters of a UUID's text are hex digits and hyphens, all plain in JSON.
pub proof fn lemma_uuid_text_plain(u: u128)
    ensures
        uuid_text(u).len() == 36,
        forall|i: int| 0 <= i < uuid_text(u).len() ==> json_plain(#[trigger] uuid_text(u)[i]),
{
    let h = hex_of_u128(u);
    assert forall|i: int| 0 <= i < 32 implies json_plain(#[trigger] h[i]) by {
        let k = (4 * (31 - i)) as u128;
        let n = (u >> k) & 0xf;
        assert(n <= 15) by (bit_vector)
            requires n == (u >> k) & 0xf;
    }
    let t = uuid_text(u);
    assert forall|i: int| 0 <= i < t.len() implies json_plain(#[trigger] t[i]) by {
        if i < 8 {
            assert(t[i] == h[i]);
        } else if i == 8 || i == 13 || i == 18 || i == 23 {
        } else if i < 13 {
            assert(t[i] == h[i - 1]);
        } else if i < 18 {
            assert(t[i] == h[i - 2]);
        } else if i < 23 {
            assert(t[i] == h[i - 3]);
        } else {
            assert(t[i] == h[i - 4]);
        }
    }
}

/// The id a save request names, when its text is a UUID.
pub open spec fn named_id(text: Option<Seq<char>>) -> Option<u128> {
    match text {
        Some(t) => uuid_from_text(t),
        None => None,
    }
}

/// The id of a record being saved: the UUID the request names when its text parses,
/// else a fresh random (version 4) UUID.
pub fn id_or_new(text: Option<&str>) -> (r: u128)
    ensures
        named_id(match text { Some(t) => Some(t@), None => None }) matches Some(u) ==> r == u,
        named_id(match text { Some(t) => Some(t@), None => None }) is None ==> (r >> 76u128) & 0xf == 4,
{
    let parsed = match text {
        Some(t) => parse_uuid(t),
        None => None,
    };
    match parsed {
        Some(u) => u,
        None => new_uuid_v4(),
    }
}

/// `"<what> [<id>] <tail>"`: the message of a not-found answer.
pub open spec fn not_found_text(what: Seq<char>, id: u128, tail: Seq<char>) -> Seq<char> {
    what + seq![' ', '['] + uuid_text(id) + seq![']', ' '] + tail
}

/// The record a lookup found, or a not-found answer naming what was looked for.
pub fn found_or_not_found<T>(found: Option<T>, what: &str, id: u128, tail: &str) -> (r: Result<T, ApiError>)
    ensures
        found matches Some(x) ==> r == Ok::<T, ApiError>(x),
        found is None ==> (r matches Err(ApiError::NotFound(m)) && m@ == not_found_text(what@, id, tail@)),
{
    match found {
        Some(x) => Ok(x),
        None => {
            let head = concat_str(what, " [");
            let with_id = concat_str(head.as_str(), uuid_to_string(id).as_str());
            let with_close = concat_str(with_id.as_str(), "] ");
            let msg = concat_str(with_close.as_str(), tail);
            proof {
                reveal_strlit(" [");
                reveal_strlit("] ");
                assert(msg@ =~= not_found_text(what@, id, tail@));
            }
            Err(ApiError::NotFound(msg))
        }
    }
}

} // verus!
