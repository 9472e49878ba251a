//! What the service takes from other crates as it stands: types whose values are
//! carried through, and the calls made on them.
use vstd::prelude::*;

verus! {

/// `serde_json::Value`, the value of a signal. The service stores, copies and
/// hands on values and never looks inside.
#[verifier::external_type_specification]
#[verifier::external_body]
pub struct ExValue(serde_json::Value);

/// `serde_json::Error`, why a text or a document was not what was asked for.
#[verifier::external_type_specification]
#[verifier::external_body]
pub struct ExJsonError(serde_json::Error);

/// `tungstenite::Error`, why a websocket connection failed.
#[verifier::external_type_specification]
#[verifier::external_body]
pub struct ExWsError(tungstenite::Error);

/// `url::ParseError`, why an address is not a URL.
#[verifier::external_type_specification]
#[verifier::external_body]
pub struct ExUrlParseError(url::ParseError);

/// `std::io::Error`, why an operation of the system failed.
#[verifier::external_type_specification]
#[verifier::external_body]
pub struct ExIoError(std::io::Error);

/// `std::time::SystemTime`, a moment on the system clock.
#[verifier::external_type_specification]
#[verifier::external_body]
pub struct ExSystemTime(std::time::SystemTime);

/// `std::time::SystemTimeError`, why there is no span from one moment to another.
#[verifier::external_type_specification]
#[verifier::external_body]
pub struct ExSystemTimeError(std::time::SystemTimeError);

/// `serde_json::Value::clone`: the copy is the value copied.
pub assume_specification[ <serde_json::Value as Clone>::clone ](
    value: &serde_json::Value,
) -> (copy: serde_json::Value)
    ensures
        copy == *value,
;

/// `std::time::SystemTime::now`: some moment; nothing is claimed of which.
pub assume_specification[ std::time::SystemTime::now ]() -> (now: std::time::SystemTime)
;

/// The JSON document that a text spells, or why it spells none.
pub uninterp spec fn json_document(text: Seq<char>) -> Result<
    serde_json::Value,
    serde_json::Error,
>;

/// `serde_json::from_str` into `serde_json::Value`: the document that the text
/// spells, or an error where it spells none. Either is fixed by the text; which it is,
/// and what the error says, is left open.
#[verifier::external_body]
pub(crate) fn parse_json(text: &str) -> (parsed: Result<serde_json::Value, serde_json::Error>)
    ensures
        parsed == json_document(text@),
{
    serde_json::from_str(text)
}

/// The standard phrase of an HTTP status code, or nothing where it has none.
pub uninterp spec fn status_phrase(code: u16) -> Option<Seq<char>>;

/// `http::StatusCode::canonical_reason`, on the code made by
/// `http::StatusCode::from_u16`: the standard phrase of the code, or nothing where
/// it has none. The phrases of codes 500 and 501 are spelled out.
#[verifier::external_body]
pub(crate) fn canonical_reason(code: u16) -> (phrase: Option<String>)
    ensures
        phrase matches Some(text) ==> status_phrase(code) == Some(text@),
        phrase is None ==> status_phrase(code) is None && code != 500 && code != 501,
        phrase is Some && code == 500 ==> phrase->0@ == "Internal Server Error"@,
        phrase is Some && code == 501 ==> phrase->0@ == "Not Implemented"@,
{
    match http::StatusCode::from_u16(code) {
        Ok(status) => status.canonical_reason().map(str::to_string),
        Err(_) => None,
    }
}

} // verus!
