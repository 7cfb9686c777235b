//! JSON documents, read by `serde_json`.
//!
//! A document is carried as `serde_json::Value`. The proofs see nothing inside
//! one: what the parser and the accessors return is named by the spec
//! functions below, and the rest of the library reasons over those names.

use serde_json::Value;
use vstd::prelude::*;

verus! {

/// `serde_json::Value`, any JSON value.
#[verifier::external_type_specification]
#[verifier::external_body]
pub struct ExValue(Value);

/// `serde_json::Error`, why a text was not read as JSON.
#[verifier::external_type_specification]
#[verifier::external_body]
pub struct ExJsonError(serde_json::Error);

/// The value that `serde_json::from_str` reads from `text`, or `None` where it
/// reports an error.
pub uninterp spec fn json_document(text: Seq<char>) -> Option<Value>;

/// The member that `Value::get` finds under `key`: present only where `value`
/// is an object that holds the key.
pub uninterp spec fn json_member(value: Value, key: Seq<char>) -> Option<Value>;

/// The text that `Value::as_str` finds: present only where `value` is a JSON
/// string.
pub uninterp spec fn json_text(value: Value) -> Option<Seq<char>>;

/// Calls `serde_json::from_str` for a `Value`. The parser reads the whole
/// text and nothing else, so its outcome is a function of the text: the
/// contract gives that outcome its name and claims no more.
#[verifier::external_body]
pub(crate) fn parse_document(text: &str) -> (parsed: Result<Value, serde_json::Error>)
    ensures
        match parsed {
            Ok(document) => json_document(text@) == Some(document),
            Err(_) => json_document(text@) is None,
        },
{
    serde_json::from_str::<Value>(text)
}

/// Calls `Value::get` with a string key, which looks the key up where the
/// value is an object and returns `None` otherwise. The contract names what
/// was found.
#[verifier::external_body]
pub(crate) fn member<'a>(value: &'a Value, key: &str) -> (found: Option<&'a Value>)
    ensures
        match found {
            Some(inner) => json_member(*value, key@) == Some(*inner),
            None => json_member(*value, key@) is None,
        },
{
    value.get(key)
}

/// Calls `Value::as_str`, which returns the text of a JSON string and `None`
/// for every other kind of value. The contract names what was found.
#[verifier::external_body]
pub(crate) fn text<'a>(value: &'a Value) -> (found: Option<&'a str>)
    ensures
        match found {
            Some(s) => json_text(*value) == Some(s@),
            None => json_text(*value) is None,
        },
{
    value.as_str()
}

/// The text under `key` in `document`: present where the document is an
/// object whose member `key` is a string.
pub open spec fn text_member(document: Value, key: Seq<char>) -> Option<Seq<char>> {
    match json_member(document, key) {
        Some(inner) => json_text(inner),
        None => None,
    }
}

/// Reads the string member `key` of `document`.
pub fn text_field(document: &Value, key: &str) -> (field: Option<String>)
    ensures
        match field {
            Some(s) => text_member(*document, key@) == Some(s@),
            None => text_member(*document, key@) is None,
        },
{
    match member(document, key) {
        Some(inner) => match text(inner) {
            Some(s) => Some(s.to_owned()),
            None => None,
        },
        None => None,
    }
}

} // verus!
