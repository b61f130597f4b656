//! Reading JSON text through `serde_json`. The JSON grammar and the number
//! conversions are serde_json's; the library only names their results.

use vstd::prelude::*;

verus! {

/// What `serde_json` reports when `text` is not a JSON document: `None` for
/// a document, otherwise the error's message.
pub uninterp spec fn json_syntax_error(text: Seq<char>) -> Option<Seq<char>>;

/// The field `key` of the JSON object in `text`, when `text` is a JSON
/// object, has that field, and the field is an integer that fits `i64`.
pub uninterp spec fn json_int_field(text: Seq<char>, key: Seq<char>) -> Option<i64>;

/// The field `key` of the JSON object in `text`, when `text` is a JSON
/// object, has that field, and the field is a string.
pub uninterp spec fn json_text_field(text: Seq<char>, key: Seq<char>) -> Option<Seq<char>>;

/// Parses `text` with `serde_json::from_str::<serde_json::Value>` and
/// returns the error's `Display` text when parsing fails. The contract
/// claims only that the result is a function of the text.
#[verifier::external_body]
pub(crate) fn syntax_error(text: &str) -> (r: Option<String>)
    ensures
        match r {
            Some(msg) => json_syntax_error(text@) == Some(msg@),
            None => json_syntax_error(text@) is None,
        },
{
    match serde_json::from_str::<serde_json::Value>(text) {
        Ok(_) => None,
        Err(e) => Some(e.to_string()),
    }
}

/// Parses `text` with `serde_json::from_str::<serde_json::Value>`, looks the
/// field up with `Value::get` and reads it with `Value::as_i64`. The
/// contract claims only that the result is a function of text and key.
#[verifier::external_body]
pub(crate) fn int_field(text: &str, key: &str) -> (r: Option<i64>)
    ensures
        r == json_int_field(text@, key@),
{
    match serde_json::from_str::<serde_json::Value>(text) {
        Ok(value) => match value.get(key) {
            Some(field) => field.as_i64(),
            None => None,
        },
        Err(_) => None,
    }
}

/// Parses `text` with `serde_json::from_str::<serde_json::Value>`, looks the
/// field up with `Value::get` and reads it with `Value::as_str`. The
/// contract claims only that the result is a function of text and key.
#[verifier::external_body]
pub(crate) fn text_field(text: &str, key: &str) -> (r: Option<String>)
    ensures
        match r {
            Some(s) => json_text_field(text@, key@) == Some(s@),
            None => json_text_field(text@, key@) is None,
        },
{
    match serde_json::from_str::<serde_json::Value>(text) {
        Ok(value) => match value.get(key) {
            Some(field) => match field.as_str() {
                Some(s) => Some(s.to_string()),
                None => None,
            },
            None => None,
        },
        Err(_) => None,
    }
}

} // verus!
