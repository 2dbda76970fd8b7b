//! Turning the content of a JSON file into a value.

use serde_json::{Error, Value};
use vstd::prelude::*;

verus! {

/// `serde_json::Value`, carried through without looking inside.
#[verifier::external_type_specification]
#[verifier::external_body]
pub struct ExValue(Value);

/// `serde_json::Error`, carried through without looking inside.
#[verifier::external_type_specification]
#[verifier::external_body]
pub struct ExError(Error);

/// Whether `serde_json::from_str` reads the given text as one JSON value.
pub uninterp spec fn json_accepts(text: Seq<char>) -> bool;

/// Calls `serde_json::from_str` for a `serde_json::Value`.
///
/// Trusted: whether the call succeeds depends on the text alone, and
/// [`json_accepts`] is the name for it. Nothing is claimed of the value or
/// of the error that comes back.
#[verifier::external_body]
fn parse_value(text: &str) -> (parsed: Result<Value, Error>)
    ensures
        parsed is Ok == json_accepts(text@),
{
    serde_json::from_str::<Value>(text)
}

/// Calls `serde_json::Error::io`, which wraps an I/O error as a JSON error.
/// Nothing is claimed of the error that comes back.
#[verifier::external_body]
fn io_failure(source: std::io::Error) -> (error: Error) {
    Error::io(source)
}

/// Turns the outcome of reading a JSON file into a value.
///
/// A file that could not be read gives an error. The content of a file that
/// was read is parsed: it gives a value exactly when it is one JSON value,
/// and an error otherwise.
pub fn json_content_to_value(content: Result<String, std::io::Error>) -> (outcome: Result<
    Value,
    Error,
>)
    ensures
        match content {
            Ok(data) => outcome is Ok == json_accepts(data@),
            Err(_) => outcome is Err,
        },
{
    match content {
        Ok(data) => parse_value(data.as_str()),
        Err(source) => Err(io_failure(source)),
    }
}

} // verus!
