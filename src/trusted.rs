//! Everything this library takes from other crates on trust: the outside types it
//! carries, and the calls it makes into serde_json, url, chrono and reqwest.

use serde_json::Value;
use std::collections::BTreeMap;
use vstd::prelude::*;

verus! {

/// A transport-level failure reported by reqwest; carried, never inspected.
#[verifier::external_type_specification]
#[verifier::external_body]
pub struct ExReqwestError(reqwest::Error);

/// A header value that reqwest refused; carried, never inspected.
#[verifier::external_type_specification]
#[verifier::external_body]
pub struct ExInvalidHeaderValue(reqwest::header::InvalidHeaderValue);

/// A header value accepted by reqwest.
#[verifier::external_type_specification]
#[verifier::external_body]
pub struct ExHeaderValue(reqwest::header::HeaderValue);

/// What serde_json reads from a text that holds one JSON object: for each member, in
/// order of name, the name, the member's text when it is a string, and whether it is
/// null. `None` when the text is not a single JSON object.
pub uninterp spec fn json_object_members(text: Seq<char>) -> Option<
    Seq<(Seq<char>, Option<Seq<char>>, bool)>,
>;

/// Relies on serde_json::from_str, reading the text into a map from member name to
/// serde_json::Value; each value is then told apart as a string, a null, or other.
#[verifier::external_body]
pub(crate) fn read_json_object(text: &str) -> (r: Option<Vec<(String, Option<String>, bool)>>)
    ensures
        r.deep_view() == json_object_members(text@),
{
    let map: BTreeMap<String, Value> = serde_json::from_str(text).ok()?;
    Some(map.into_iter().map(|(name, value)| match value {
        Value::String(s) => (name, Some(s), false),
        Value::Null => (name, None, true),
        Value::Bool(_) | Value::Number(_) | Value::Array(_) | Value::Object(_) => (name, None, false),
    }).collect())
}

/// A byte that http's `HeaderValue::from_str` accepts: visible ASCII, space, tab, or
/// any byte of a multi-byte character. On characters: every character but the control
/// characters other than tab, and DEL.
pub open spec fn header_char_ok(c: char) -> bool {
    (c as u32 >= 32 && c as u32 != 127) || c == '\t'
}

/// Relies on reqwest's (http's) `HeaderValue::from_str`, which checks each byte of the
/// text and fails exactly when one is a control byte other than tab, or DEL.
pub assume_specification[ reqwest::header::HeaderValue::from_str ](src: &str) -> (r: Result<
    reqwest::header::HeaderValue,
    reqwest::header::InvalidHeaderValue,
>)
    ensures
        r is Ok <==> forall|i: int| 0 <= i < src@.len() ==> header_char_ok(#[trigger] src@[i]),
;

/// The RFC 3339 text that chrono gives for the point `seconds` seconds and `nanos`
/// nanoseconds after the Unix epoch, in UTC; `None` when chrono cannot represent it.
pub uninterp spec fn rfc3339_of(seconds: i64, nanos: u32) -> Option<Seq<char>>;

/// Relies on chrono's `DateTime::<Utc>::from_timestamp` (which returns `None` out of
/// range or for an invalid nanosecond count) and `DateTime::to_rfc3339`.
#[verifier::external_body]
pub(crate) fn format_rfc3339(seconds: i64, nanos: u32) -> (r: Option<String>)
    ensures
        r.deep_view() == rfc3339_of(seconds, nanos),
{
    chrono::DateTime::from_timestamp(seconds, nanos).map(|t| t.to_rfc3339())
}

/// A parsed URL; carried, never inspected.
#[verifier::external_type_specification]
#[verifier::external_body]
pub struct ExUrl(::url::Url);

/// Why url refused a text; carried, never inspected.
#[verifier::external_type_specification]
#[verifier::external_body]
pub struct ExUrlParseError(::url::ParseError);

/// Whether url's parser accepts the text as an absolute URL.
pub uninterp spec fn url_parses(text: Seq<char>) -> bool;

/// Relies on url's `Url::parse`: it succeeds exactly on the texts its parser accepts,
/// whatever those are, the same ones each time.
pub assume_specification[ ::url::Url::parse ](input: &str) -> (r: Result<::url::Url, ::url::ParseError>)
    ensures
        r is Ok <==> url_parses(input@),
;

/// The text of the URL that url makes from the base URL `base` by setting its path to
/// `path` and its query to the pairs of `query`, form-encoded, in order.
pub uninterp spec fn endpoint_url_of(
    base: Seq<char>,
    path: Seq<char>,
    query: Seq<(Seq<char>, Seq<char>)>,
) -> Seq<char>;

/// Relies on url's `Url::parse` of the base text, then `Url::set_path` and
/// `Url::query_pairs_mut` (with `clear` and `extend_pairs`); `None` exactly when the
/// base text does not parse.
#[verifier::external_body]
pub(crate) fn endpoint_url(base: &str, path: &str, query: &Vec<(String, String)>) -> (r: Option<
    String,
>)
    ensures
        r is Some <==> url_parses(base@),
        r matches Some(u) ==> u@ == endpoint_url_of(base@, path@, query.deep_view()),
{
    let mut target = ::url::Url::parse(base).ok()?;
    target.set_path(path);
    target.query_pairs_mut().clear().extend_pairs(query.iter());
    Some(target.into())
}

/// Relies on the `Display` of reqwest's error: a readable account of the failure.
#[verifier::external_body]
pub(crate) fn reqwest_error_text(e: &reqwest::Error) -> String {
    e.to_string()
}

/// Relies on the `Display` of http's `InvalidHeaderValue`, which writes a fixed text.
#[verifier::external_body]
pub(crate) fn header_error_text(e: &reqwest::header::InvalidHeaderValue) -> (r: String)
    ensures
        r@ == "failed to parse header value"@,
{
    e.to_string()
}

} // verus!
