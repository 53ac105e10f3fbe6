//! The JSON pieces of a log entry's canonical form.
//!
//! Objects are framed here, byte for byte. String literals, with their
//! escapes, are written by `serde_json`.

use vstd::prelude::*;
use vstd::string::*;
use crate::error::SentinelError;
use crate::score::{push_six_decimals, six_decimals};
use crate::text::{decimal_text, push_bytes, push_decimal, push_text, utf8};

verus! {

/// The JSON string literal for `text`, quotes and escapes included, as
/// `serde_json` writes it.
pub uninterp spec fn json_string(text: Seq<char>) -> Seq<u8>;

/// `true` or `false`.
pub open spec fn json_bool(value: bool) -> Seq<u8> {
    if value {
        utf8("true"@)
    } else {
        utf8("false"@)
    }
}

/// A whole number in decimal.
pub open spec fn json_number(value: u64) -> Seq<u8> {
    utf8(decimal_text(value as nat))
}

/// A whole number in decimal, or `null`.
pub open spec fn json_optional_number(value: Option<u64>) -> Seq<u8> {
    match value {
        Some(n) => json_number(n),
        None => utf8("null"@),
    }
}

/// A score as a decimal fraction with six decimals.
pub open spec fn json_score(score: u64) -> Seq<u8> {
    utf8(six_decimals(score as nat))
}

/// A string literal, or `null`.
pub open spec fn json_optional_string(text: Option<Seq<char>>) -> Seq<u8> {
    match text {
        Some(t) => json_string(t),
        None => utf8("null"@),
    }
}

/// What `serde_json` reports when it cannot serialize.
#[verifier::external_type_specification]
#[verifier::external_body]
pub struct ExJsonError(serde_json::Error);

/// Trusted: `serde_json::to_vec` on a `str`. Its documentation gives two
/// causes of failure, a `Serialize` impl that fails and a map with keys that
/// are not strings; a `str` is neither, and the writer is a `Vec`, so the
/// contract claims `Ok`. The bytes get the name [`json_string`].
#[verifier::external_body]
pub(crate) fn json_string_bytes(text: &str) -> (bytes: Result<Vec<u8>, serde_json::Error>)
    ensures
        bytes is Ok,
        bytes matches Ok(b) ==> b@ == json_string(text@),
{
    serde_json::to_vec(text)
}

/// Trusted: the `Display` text of a `serde_json::Error`, through
/// `to_string()`. Nothing is claimed of the text.
#[verifier::external_body]
pub(crate) fn json_error_text(error: &serde_json::Error) -> (text: String) {
    error.to_string()
}

/// Appends the JSON string literal for `text`.
pub fn push_json_string(buf: &mut Vec<u8>, text: &str) -> (r: Result<(), SentinelError>)
    ensures
        r is Ok,
        final(buf)@ == old(buf)@ + json_string(text@),
{
    match json_string_bytes(text) {
        Ok(bytes) => {
            push_bytes(buf, bytes.as_slice());
            Ok(())
        },
        Err(e) => Err(SentinelError::SerializationError(json_error_text(&e))),
    }
}

/// Appends `true` or `false`.
pub fn push_json_bool(buf: &mut Vec<u8>, value: bool)
    ensures
        final(buf)@ == old(buf)@ + json_bool(value),
{
    if value {
        push_text(buf, "true");
    } else {
        push_text(buf, "false");
    }
}

/// Appends a whole number in decimal.
pub fn push_json_number(buf: &mut Vec<u8>, value: u64)
    ensures
        final(buf)@ == old(buf)@ + json_number(value),
{
    let mut digits = String::new();
    push_decimal(&mut digits, value);
    assert(digits@ =~= decimal_text(value as nat));
    push_text(buf, digits.as_str());
}

/// Appends a whole number in decimal, or `null`.
pub fn push_json_optional_number(buf: &mut Vec<u8>, value: Option<u64>)
    ensures
        final(buf)@ == old(buf)@ + json_optional_number(value),
{
    match value {
        Some(n) => push_json_number(buf, n),
        None => push_text(buf, "null"),
    }
}

/// Appends a score as a decimal fraction with six decimals.
pub fn push_json_score(buf: &mut Vec<u8>, score: u64)
    ensures
        final(buf)@ == old(buf)@ + json_score(score),
{
    let mut digits = String::new();
    push_six_decimals(&mut digits, score);
    assert(digits@ =~= six_decimals(score as nat));
    push_text(buf, digits.as_str());
}

} // verus!
