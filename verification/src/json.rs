//! JSON values as the bridge sees them.
//!
//! A JSON value is carried, never inspected: a request body is written out as
//! text, and a response body is read from text. Both directions are the work
//! of `serde_json`, so everything here is believed, not proved. A value
//! stands in contracts for its compact text, and a reading error for its
//! message.

use vstd::prelude::*;

verus! {

/// `serde_json::Value`, opaque to the verifier.
#[verifier::external_type_specification]
#[verifier::external_body]
pub struct ExValue(serde_json::Value);

/// `serde_json::Error`, opaque to the verifier.
#[verifier::external_type_specification]
#[verifier::external_body]
pub struct ExError(serde_json::Error);

/// What a value holds: its compact JSON text, as `serde_json` prints the
/// value with `{}`.
pub uninterp spec fn json_text(value: serde_json::Value) -> Seq<char>;

/// What an error holds: its message, as `serde_json` prints the error with
/// `{}`.
pub uninterp spec fn json_error_text(error: serde_json::Error) -> Seq<char>;

/// What `serde_json::from_str` makes of a text: the value that the text
/// denotes, given by its compact text, or the message of the error that
/// reading ends with.
pub uninterp spec fn json_reading(text: Seq<char>) -> Result<Seq<char>, Seq<char>>;

/// The text of JSON's `null`.
pub open spec fn null_text() -> Seq<char> {
    seq!['n', 'u', 'l', 'l']
}

/// Calls `Value::to_string`, which prints the value through its `Display`
/// impl in compact form. Believed: the result is the text that `json_text`
/// names, the same for equal values.
#[verifier::external_body]
pub(crate) fn to_text(value: &serde_json::Value) -> (text: String)
    ensures
        text@ == json_text(*value),
{
    value.to_string()
}

/// Calls `serde_json::from_str` for a `Value`. Believed: whether reading
/// succeeds, and the value or the error that it ends with, depend on the
/// text alone and are what `json_reading` names.
#[verifier::external_body]
pub(crate) fn parse(text: &str) -> (parsed: Result<serde_json::Value, serde_json::Error>)
    ensures
        match parsed {
            Ok(value) => json_reading(text@) == Ok::<Seq<char>, Seq<char>>(json_text(value)),
            Err(error) => json_reading(text@) == Err::<Seq<char>, Seq<char>>(
                json_error_text(error),
            ),
        },
{
    serde_json::from_str::<serde_json::Value>(text)
}

/// Calls `Error::to_string`, which prints the error through its `Display`
/// impl: the cause, followed by line and column where the error has a
/// position. Believed: the result is the text that `json_error_text` names.
#[verifier::external_body]
pub(crate) fn error_message(error: &serde_json::Error) -> (message: String)
    ensures
        message@ == json_error_text(*error),
{
    error.to_string()
}

/// Makes `Value::Null`. Believed: its compact text is `null`.
#[verifier::external_body]
pub(crate) fn null() -> (value: serde_json::Value)
    ensures
        json_text(value) == null_text(),
{
    serde_json::Value::Null
}

} // verus!
