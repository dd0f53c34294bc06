//! Decoding the request to show the overlay indicator from its JSON text.

use vstd::prelude::*;
use crate::icon_events::IconRequest;

verus! {

/// A JSON document as `serde_json` holds it.
#[verifier::external_type_specification]
#[verifier::external_body]
pub struct ExValue(serde_json::Value);

/// What `serde_json` reports when a text is not JSON.
#[verifier::external_type_specification]
#[verifier::external_body]
pub struct ExError(serde_json::Error);

/// The document that `serde_json::from_str` reads from `text`, if it reads
/// one.
pub uninterp spec fn json_document(text: Seq<char>) -> Option<serde_json::Value>;

/// The member that `serde_json::Value::get` finds in `document` under `key`.
pub uninterp spec fn json_member(document: serde_json::Value, key: Seq<char>) -> Option<
    serde_json::Value,
>;

/// The text that `serde_json::Value::as_str` finds in `value`.
pub uninterp spec fn json_text(value: serde_json::Value) -> Option<Seq<char>>;

/// The integer that `serde_json::Value::as_i64` finds in `value`.
pub uninterp spec fn json_integer(value: serde_json::Value) -> Option<i64>;

/// `serde_json::from_str` at the type `serde_json::Value`: the document that
/// `text` spells, or an error when `text` is not one JSON value. The contract
/// names the document; the same text always reads as the same document.
#[verifier::external_body]
fn parse_document(text: &str) -> (read: Result<serde_json::Value, serde_json::Error>)
    ensures
        match read {
            Ok(document) => json_document(text@) == Some(document),
            Err(_) => json_document(text@).is_none(),
        },
{
    serde_json::from_str::<serde_json::Value>(text)
}

/// `serde_json::Value::get` with a string index: the member of an object
/// under `key`; nothing when the document is not an object or has no such
/// member. The contract names the member.
#[verifier::external_body]
fn member<'a>(document: &'a serde_json::Value, key: &str) -> (found: Option<&'a serde_json::Value>)
    ensures
        match found {
            Some(value) => json_member(*document, key@) == Some(*value),
            None => json_member(*document, key@).is_none(),
        },
{
    document.get(key)
}

/// `serde_json::Value::as_str`: the text of a value that is a string,
/// nothing for any other value. The contract names the text.
pub assume_specification<'a>[ serde_json::Value::as_str ](value: &'a serde_json::Value) -> (text:
    Option<&'a str>)
    ensures
        match text {
            Some(t) => json_text(*value) == Some(t@),
            None => json_text(*value).is_none(),
        },
;

/// `serde_json::Value::as_i64`: the number of a value that is an integer
/// within the range of `i64`, nothing for any other value. The contract
/// names the number.
pub assume_specification[ serde_json::Value::as_i64 ](value: &serde_json::Value) -> (number:
    Option<i64>)
    ensures
        number == json_integer(*value),
;

/// Why a payload is no request.
#[derive(Clone, Copy, Debug, PartialEq, Eq, Structural)]
pub enum PayloadError {
    /// The payload is not JSON.
    Unparsable,
    /// The payload is JSON, but lacks a text under `text` or an integer
    /// under `x` or `y`.
    Invalid,
}

/// The text of the member of `document` under `key`, if that member is a
/// string.
pub open spec fn text_under(document: serde_json::Value, key: Seq<char>) -> Option<Seq<char>> {
    match json_member(document, key) {
        Some(value) => json_text(value),
        None => None,
    }
}

/// The number of the member of `document` under `key`, if that member is an
/// integer.
pub open spec fn integer_under(document: serde_json::Value, key: Seq<char>) -> Option<i64> {
    match json_member(document, key) {
        Some(value) => json_integer(value),
        None => None,
    }
}

/// The content of a request or the reason for its absence.
pub open spec fn request_view(request: Result<IconRequest, PayloadError>) -> Result<
    (Seq<char>, i64, i64),
    PayloadError,
> {
    match request {
        Ok(r) => Ok((r.text@, r.x, r.y)),
        Err(e) => Err(e),
    }
}

/// The request that three members make: all three have to be there.
pub open spec fn request_of(text: Option<Seq<char>>, x: Option<i64>, y: Option<i64>) -> Result<
    (Seq<char>, i64, i64),
    PayloadError,
> {
    match (text, x, y) {
        (Some(text), Some(x), Some(y)) => Ok((text, x, y)),
        _ => Err(PayloadError::Invalid),
    }
}

/// The request that a payload spells.
pub open spec fn decoded(payload: Seq<char>) -> Result<(Seq<char>, i64, i64), PayloadError> {
    match json_document(payload) {
        Some(document) => request_of(
            text_under(document, "text"@),
            integer_under(document, "x"@),
            integer_under(document, "y"@),
        ),
        None => Err(PayloadError::Unparsable),
    }
}

fn read_text(document: &serde_json::Value, key: &str) -> (text: Option<String>)
    ensures
        match text {
            Some(t) => text_under(*document, key@) == Some(t@),
            None => text_under(*document, key@).is_none(),
        },
{
    match member(document, key) {
        Some(value) => match value.as_str() {
            Some(text) => Some(text.to_owned()),
            None => None,
        },
        None => None,
    }
}

fn read_integer(document: &serde_json::Value, key: &str) -> (number: Option<i64>)
    ensures
        number == integer_under(*document, key@),
{
    match member(document, key) {
        Some(value) => value.as_i64(),
        None => None,
    }
}

/// Puts a request together from the three members read off a payload.
pub fn assemble_request(text: Option<String>, x: Option<i64>, y: Option<i64>) -> (request: Result<
    IconRequest,
    PayloadError,
>)
    ensures
        request_view(request) == request_of(
            match text {
                Some(t) => Some(t@),
                None => None,
            },
            x,
            y,
        ),
{
    match (text, x, y) {
        (Some(text), Some(x), Some(y)) => Ok(IconRequest { text, x, y }),
        _ => Err(PayloadError::Invalid),
    }
}

/// Decodes the payload of a request to show the indicator: a JSON object
/// with a string under `text` and integers under `x` and `y`. Other members
/// are ignored.
pub fn decode_icon_request(payload: &str) -> (request: Result<IconRequest, PayloadError>)
    ensures
        request_view(request) == decoded(payload@),
{
    match parse_document(payload) {
        Ok(document) => assemble_request(
            read_text(&document, "text"),
            read_integer(&document, "x"),
            read_integer(&document, "y"),
        ),
        Err(_) => Err(PayloadError::Unparsable),
    }
}

} // verus!
