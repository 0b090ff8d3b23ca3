//! JSON as this crate needs it. Reading and escaping are `serde_json`'s
//! work and are trusted as declared here; the framing of the documents
//! that the crate writes is the crate's own.

use vstd::prelude::*;
use vstd::string::*;
use crate::text::opt_view;

verus! {

/// What `serde_json::from_str` makes of a text read as one
/// `serde_json::Value`: `None` where it accepts the text, else its error,
/// displayed.
pub uninterp spec fn syntax_error(text: Seq<char>) -> Option<Seq<char>>;

/// The string held by the member `key` of the JSON object written in
/// `text`, as `serde_json::Value::as_str` gives it; `None` where the text is
/// not accepted, the value no object, the member absent or no string.
pub uninterp spec fn string_member(text: Seq<char>, key: Seq<char>) -> Option<Seq<char>>;

/// The integer held by the member `key` of the JSON object written in
/// `text`, as `serde_json::Value::as_i64` gives it; `None` where the text is
/// not accepted, the value no object, the member absent, no integer, or one
/// beyond `i64`.
pub uninterp spec fn integer_member(text: Seq<char>, key: Seq<char>) -> Option<i64>;

/// The integer held by the member `key` of the JSON object written in
/// `text`, as `serde_json::Value::as_u64` gives it; `None` where the text is
/// not accepted, the value no object, the member absent, no integer, or a
/// negative one.
pub uninterp spec fn unsigned_member(text: Seq<char>, key: Seq<char>) -> Option<u64>;

/// The member `key` of the JSON object written in `text`, written out again
/// by `serde_json` in its compact form; `None` where the text is not
/// accepted, the value no object or the member absent.
pub uninterp spec fn member(text: Seq<char>, key: Seq<char>) -> Option<Seq<char>>;

/// The JSON value written in `text`, written out again by `serde_json` in
/// its compact form; `None` where the text is not accepted.
pub uninterp spec fn compact(text: Seq<char>) -> Option<Seq<char>>;

/// A text as a JSON string value in `serde_json`'s compact form: quoted and
/// escaped.
pub uninterp spec fn literal(text: Seq<char>) -> Seq<char>;

/// Calls `serde_json::from_str` for a `serde_json::Value` and hands back
/// the displayed error, if there is one. Trusted: the result is a function
/// of the text alone, named `syntax_error`.
#[verifier::external_body]
pub(crate) fn check_syntax(text: &str) -> (r: Option<String>)
    ensures
        opt_view(r) == syntax_error(text@),
{
    match serde_json::from_str::<serde_json::Value>(text) {
        Ok(_) => None,
        Err(e) => Some(e.to_string()),
    }
}

/// Parses with `serde_json::from_str`, looks the member up with
/// `Value::get` and reads it with `Value::as_str`. Trusted: the result is a
/// function of text and key alone, named `string_member`.
#[verifier::external_body]
pub(crate) fn read_string_member(text: &str, key: &str) -> (r: Option<String>)
    ensures
        opt_view(r) == string_member(text@, key@),
{
    let document: serde_json::Value = serde_json::from_str(text).ok()?;
    Some(document.get(key)?.as_str()?.to_owned())
}

/// Parses with `serde_json::from_str`, looks the member up with
/// `Value::get` and reads it with `Value::as_i64`. Trusted: the result is a
/// function of text and key alone, named `integer_member`.
#[verifier::external_body]
pub(crate) fn read_integer_member(text: &str, key: &str) -> (r: Option<i64>)
    ensures
        r == integer_member(text@, key@),
{
    let document: serde_json::Value = serde_json::from_str(text).ok()?;
    document.get(key)?.as_i64()
}

/// Parses with `serde_json::from_str`, looks the member up with
/// `Value::get` and reads it with `Value::as_u64`. Trusted: the result is a
/// function of text and key alone, named `unsigned_member`.
#[verifier::external_body]
pub(crate) fn read_unsigned_member(text: &str, key: &str) -> (r: Option<u64>)
    ensures
        r == unsigned_member(text@, key@),
{
    let document: serde_json::Value = serde_json::from_str(text).ok()?;
    document.get(key)?.as_u64()
}

/// Parses with `serde_json::from_str`, looks the member up with
/// `Value::get` and writes it out with the value's `Display`. Trusted: the
/// result is a function of text and key alone, named `member`.
#[verifier::external_body]
pub(crate) fn read_member(text: &str, key: &str) -> (r: Option<String>)
    ensures
        opt_view(r) == member(text@, key@),
{
    let document: serde_json::Value = serde_json::from_str(text).ok()?;
    Some(document.get(key)?.to_string())
}

/// Parses with `serde_json::from_str` and writes the value out with its
/// `Display`. Trusted: the result is a function of the text alone, named
/// `compact`.
#[verifier::external_body]
pub(crate) fn write_compact(text: &str) -> (r: Option<String>)
    ensures
        opt_view(r) == compact(text@),
{
    let document: serde_json::Value = serde_json::from_str(text).ok()?;
    Some(document.to_string())
}

/// Writes a text as a JSON string with the `Display` of
/// `serde_json::Value::String`. Trusted: the result is a function of the
/// text alone, named `literal`.
#[verifier::external_body]
pub(crate) fn write_literal(text: &str) -> (r: String)
    ensures
        r@ == literal(text@),
{
    serde_json::Value::String(text.to_owned()).to_string()
}

/// An optional text as a JSON value: the string, or `null`.
pub open spec fn literal_or_null(text: Option<Seq<char>>) -> Seq<char> {
    match text {
        Some(t) => literal(t),
        None => "null"@,
    }
}

/// Writes an optional text as a JSON value: the string, or `null`.
pub fn write_literal_or_null(text: &Option<String>) -> (r: String)
    ensures
        r@ == literal_or_null(opt_view(*text)),
{
    match text {
        Some(t) => write_literal(t.as_str()),
        None => "null".to_string(),
    }
}

/// A text that is meant to be a JSON document, as a JSON value: the
/// document in compact form where the text is accepted as one, else
/// `null`.
pub open spec fn document_or_null(text: Option<Seq<char>>) -> Seq<char> {
    match text {
        Some(t) => match compact(t) {
            Some(document) => document,
            None => "null"@,
        },
        None => "null"@,
    }
}

/// Writes a text that is meant to be a JSON document as a JSON value.
pub fn write_document_or_null(text: &Option<String>) -> (r: String)
    ensures
        r@ == document_or_null(opt_view(*text)),
{
    match text {
        Some(t) => match write_compact(t.as_str()) {
            Some(document) => document,
            None => "null".to_string(),
        },
        None => "null".to_string(),
    }
}

} // verus!
