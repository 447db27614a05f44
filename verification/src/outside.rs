//! What the library has from other crates and from the parts of std that
//! carry no specification: each item here is believed, not proved.
use vstd::prelude::*;
use vstd::utf8::{decode_utf8, valid_utf8};

use crate::text::decimal;

verus! {

/// Whether a character has the Unicode property `White_Space`.
pub open spec fn white_space(c: char) -> bool {
    ||| '\u{9}' <= c <= '\u{d}'
    ||| c == '\u{20}'
    ||| c == '\u{85}'
    ||| c == '\u{a0}'
    ||| c == '\u{1680}'
    ||| '\u{2000}' <= c <= '\u{200a}'
    ||| c == '\u{2028}'
    ||| c == '\u{2029}'
    ||| c == '\u{202f}'
    ||| c == '\u{205f}'
    ||| c == '\u{3000}'
}

/// `char::is_whitespace`: true of the characters that have the Unicode
/// property `White_Space`, and of no others.
pub assume_specification[ char::is_whitespace ](c: char) -> (r: bool)
    ensures
        r == white_space(c),
;

/// The text that bytes stand for, with each part that is not UTF-8 replaced.
pub uninterp spec fn lossy_text(bytes: Seq<u8>) -> Seq<char>;

/// `String::from_utf8_lossy`: the text depends on the bytes alone, and bytes
/// that are valid UTF-8 are decoded as they stand.
#[verifier::external_body]
pub(crate) fn from_utf8_lossy(bytes: &[u8]) -> (r: String)
    ensures
        r@ == lossy_text(bytes@),
        valid_utf8(bytes@) ==> r@ == decode_utf8(bytes@),
{
    String::from_utf8_lossy(bytes).into_owned()
}

/// A text as `Debug` shows it: quoted and escaped.
pub uninterp spec fn quoted(s: Seq<char>) -> Seq<char>;

/// `Debug` of `str`: the quoted text depends on the text alone.
#[verifier::external_body]
pub(crate) fn quote(s: &str) -> (r: String)
    ensures
        r@ == quoted(s@),
{
    format!("{:?}", s)
}

/// A span of whole seconds as `Debug` shows it.
pub uninterp spec fn span_text(secs: u64) -> Seq<char>;

/// `Debug` of `std::time::Duration` on whole seconds: the text depends on the
/// number of seconds alone.
#[verifier::external_body]
pub(crate) fn show_span(secs: u64) -> (r: String)
    ensures
        r@ == span_text(secs),
{
    format!("{:?}", std::time::Duration::from_secs(secs))
}

#[verifier::external_type_specification]
#[verifier::external_body]
pub struct ExSystemTime(std::time::SystemTime);

/// `std::time::SystemTime::now`: a reading of the machine's clock, of which
/// nothing is promised.
#[verifier::external_body]
pub(crate) fn system_now() -> std::time::SystemTime {
    std::time::SystemTime::now()
}

/// The time from the Unix epoch to a reading of the clock, in seconds and the
/// nanoseconds beyond them, or `None` where the reading lies before the epoch.
pub uninterp spec fn epoch_time(t: std::time::SystemTime) -> Option<(u64, u32)>;

/// `SystemTime::duration_since` from the Unix epoch, with the span taken apart
/// into its seconds and nanoseconds: it depends on the reading alone, and fails
/// where that lies before the epoch.
#[verifier::external_body]
pub(crate) fn since_epoch(t: &std::time::SystemTime) -> (r: Option<(u64, u32)>)
    ensures
        r == epoch_time(*t),
{
    match t.duration_since(std::time::UNIX_EPOCH) {
        Ok(d) => Some((d.as_secs(), d.subsec_nanos())),
        Err(_) => None,
    }
}

/// The reason phrase that stands behind the number of an HTTP status.
pub uninterp spec fn reason_phrase(code: u16) -> Seq<char>;

/// `Display` of `reqwest::StatusCode`: the number, a space and a phrase that
/// depends on the number alone. `StatusCode::from_u16` takes 100 to 999.
#[verifier::external_body]
pub(crate) fn status_text(code: u16) -> (r: String)
    requires
        100 <= code < 1000,
    ensures
        r@ == decimal(code as nat) + seq![' '] + reason_phrase(code),
{
    format!("{}", reqwest::StatusCode::from_u16(code).unwrap())
}

/// `reqwest::StatusCode::is_success`: true from 200 to 299.
#[verifier::external_body]
pub(crate) fn status_is_success(code: u16) -> (r: bool)
    requires
        100 <= code < 1000,
    ensures
        r == (200 <= code < 300),
{
    reqwest::StatusCode::from_u16(code).unwrap().is_success()
}

#[verifier::external_type_specification]
#[verifier::external_body]
pub struct ExJsonValue(serde_json::Value);

#[verifier::external_type_specification]
#[verifier::external_body]
#[verifier::reject_recursive_types(K)]
#[verifier::reject_recursive_types(V)]
pub struct ExJsonMap<K, V>(serde_json::Map<K, V>);

/// A member of a JSON object: a text, a whole number, or anything else.
pub enum Field {
    Text(Seq<char>),
    Number(nat),
    Other,
}

/// All members of a JSON object, by key.
pub uninterp spec fn json_fields(
    m: serde_json::Map<String, serde_json::Value>,
) -> Map<Seq<char>, Field>;

/// `serde_json::Map::new`: an object that holds nothing.
#[verifier::external_body]
pub(crate) fn json_object() -> (m: serde_json::Map<String, serde_json::Value>)
    ensures
        json_fields(m) =~= Map::empty(),
{
    serde_json::Map::new()
}

/// `serde_json::Map::insert` of a text: the key holds the text, every other
/// key holds what it held.
#[verifier::external_body]
pub(crate) fn insert_text(
    m: &mut serde_json::Map<String, serde_json::Value>,
    key: &str,
    value: &str,
)
    ensures
        json_fields(*final(m)) == json_fields(*old(m)).insert(key@, Field::Text(value@)),
{
    m.insert(key.to_owned(), serde_json::Value::from(value));
}

/// `serde_json::Map::insert` of a whole number: the key holds the number,
/// every other key holds what it held.
#[verifier::external_body]
pub(crate) fn insert_number(
    m: &mut serde_json::Map<String, serde_json::Value>,
    key: &str,
    value: u16,
)
    ensures
        json_fields(*final(m)) == json_fields(*old(m)).insert(key@, Field::Number(value as nat)),
{
    m.insert(key.to_owned(), serde_json::Value::from(value));
}

} // verus!
