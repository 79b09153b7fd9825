//! Declarations of the outside types that the library carries through its
//! data, and the trusted items that reach into them.

use vstd::prelude::*;
use crate::db::Timestamp;
use crate::uuid_text::uuid_text_bits;

verus! {

/// `uuid::Uuid`: an identifier that the library carries and compares.
#[verifier::external_type_specification]
#[verifier::external_body]
pub struct ExUuid(uuid::Uuid);

/// `serde_json::Value`: a JSON document that the library carries unread.
#[verifier::external_type_specification]
#[verifier::external_body]
pub struct ExJsonValue(serde_json::Value);

/// `<uuid::Uuid as Clone>::clone`: `Uuid` is `Copy`, and its clone is the
/// same sixteen bytes.
pub assume_specification[ <uuid::Uuid as Clone>::clone ](u: &uuid::Uuid) -> (r: uuid::Uuid)
    ensures
        r == *u,
;

/// `<serde_json::Value as Clone>::clone`: the derived clone copies the
/// document node for node, so the copy is the same document.
pub assume_specification[ <serde_json::Value as Clone>::clone ](v: &serde_json::Value) -> (r: serde_json::Value)
    ensures
        r == *v,
;

/// Calls `<uuid::Uuid as PartialEq>::eq`. Its derived impl compares the
/// sixteen bytes of the two identifiers, so the result is true exactly when
/// they are the same identifier.
#[verifier::external_body]
pub(crate) fn same_uuid(a: &uuid::Uuid, b: &uuid::Uuid) -> (r: bool)
    ensures
        r == (*a == *b),
{
    a == b
}

/// The identifier written in `text`: the one whose 128 bits, most
/// significant first, are the number its 32 hexadecimal digits write, or
/// `None` when `text` is not a UUID in one of its forms.
pub open spec fn parsed_uuid(text: Seq<char>) -> Option<uuid::Uuid> {
    match uuid_text_bits(text) {
        Some(bits) => Some(uuid_from_bits(bits)),
        None => None,
    }
}

/// Calls `uuid::Uuid::parse_str`. It accepts exactly the simple, hyphenated,
/// braced and `urn:uuid:` forms with hexadecimal digits in either case, and
/// decodes the 32 digits pairwise into the identifier's 16 bytes in order,
/// which is the identifier that `uuid::Uuid::from_u128` builds from the same
/// number.
#[verifier::external_body]
pub(crate) fn parse_uuid(text: &str) -> (r: Option<uuid::Uuid>)
    ensures
        r == parsed_uuid(text@),
{
    uuid::Uuid::parse_str(text).ok()
}

/// The identifier `uuid::Uuid::from_u128` builds from the 128 bits `bits`
/// (big-endian); `uuid_from_bits(0)` is the nil identifier.
pub uninterp spec fn uuid_from_bits(bits: u128) -> uuid::Uuid;

/// Calls `uuid::Uuid::from_u128`, a function of the bits alone.
#[verifier::external_body]
pub(crate) fn uuid_of_bits(bits: u128) -> (r: uuid::Uuid)
    ensures
        r == uuid_from_bits(bits),
{
    uuid::Uuid::from_u128(bits)
}

/// The UTC instant that `chrono::DateTime::parse_from_rfc3339` reads from
/// `text`, converted to UTC, or `None` when `text` is not RFC 3339.
pub uninterp spec fn parsed_rfc3339(text: Seq<char>) -> Option<Timestamp>;

/// Calls `chrono::DateTime::parse_from_rfc3339` and converts the instant to
/// UTC seconds and nanoseconds; the result is a function of the text alone.
#[verifier::external_body]
pub(crate) fn parse_rfc3339(text: &str) -> (r: Option<Timestamp>)
    ensures
        r == parsed_rfc3339(text@),
{
    match chrono::DateTime::parse_from_rfc3339(text) {
        Ok(t) => {
            let utc = t.with_timezone(&chrono::Utc);
            Some(Timestamp { secs: utc.timestamp(), nanos: utc.timestamp_subsec_nanos() })
        },
        Err(_) => None,
    }
}

/// The JSON document that `serde_json::from_str` reads from `text`, or
/// `None` when `text` is not JSON.
pub uninterp spec fn parsed_json(text: Seq<char>) -> Option<serde_json::Value>;

/// Calls `serde_json::from_str::<serde_json::Value>`: the document written
/// in `text`, if it is one, a function of the text alone. The texts `[]`,
/// `{}` and `null` are JSON (an empty array, an empty object, null).
#[verifier::external_body]
pub(crate) fn parse_json(text: &str) -> (r: Option<serde_json::Value>)
    ensures
        r == parsed_json(text@),
        text@ == "[]"@ ==> r is Some,
        text@ == "{}"@ ==> r is Some,
        text@ == "null"@ ==> r is Some,
{
    serde_json::from_str::<serde_json::Value>(text).ok()
}

/// The text that `serde_json::to_string` writes for `v`, or `None` when it
/// reports an error.
pub uninterp spec fn serialized_json(v: serde_json::Value) -> Option<Seq<char>>;

/// Calls `serde_json::to_string` on a document; the result is a function of
/// the document alone.
#[verifier::external_body]
pub(crate) fn serialize_json(v: &serde_json::Value) -> (r: Option<String>)
    ensures
        match r {
            Some(t) => serialized_json(*v) == Some(t@),
            None => serialized_json(*v) is None,
        },
{
    serde_json::to_string(v).ok()
}

} // verus!
