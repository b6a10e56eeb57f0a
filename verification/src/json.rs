//! Trusted boundary to the JSON library and the unique-id generator.
//!
//! The engine's raw events and the flat value types travel as JSON text. The
//! text is parsed by `serde_json` into its document type, which the verified
//! code reads only through the wrappers below. What the parser returns is a
//! function of the text alone, so the wrappers' contracts speak of it through
//! the named specification functions `json_parsed`, `json_str_field`,
//! `json_i64_field` and `json_obj_field`.

use vstd::prelude::*;

verus! {

/// Declares `serde_json::Value`, the parsed document type, so that it can
/// stand in signatures; the verified code never looks inside a value of it.
#[verifier::external_type_specification]
#[verifier::external_body]
pub struct ExValue(serde_json::Value);

/// The document `serde_json::from_str` yields for the given text, or `None`
/// where the text is not valid JSON.
pub uninterp spec fn json_parsed(s: Seq<char>) -> Option<serde_json::Value>;

/// The string value of the named field of a document, or `None` where the
/// document is not an object, has no such field, or the field is not a string.
pub uninterp spec fn json_str_field(v: serde_json::Value, key: Seq<char>) -> Option<Seq<char>>;

/// The integer value of the named field of a document, or `None` where the
/// document is not an object, has no such field, or the field does not hold
/// an integer representable as `i64`.
pub uninterp spec fn json_i64_field(v: serde_json::Value, key: Seq<char>) -> Option<i64>;

/// The document stored under the named field of a document, or `None` where
/// the document is not an object or has no such field.
pub uninterp spec fn json_obj_field(v: serde_json::Value, key: Seq<char>) -> Option<serde_json::Value>;

/// Relies on `serde_json::from_str::<Value>`: parsing is a function of the
/// text alone; the error is turned into its description.
#[verifier::external_body]
pub fn parse_value(s: &str) -> (r: Result<serde_json::Value, String>)
    ensures
        r is Ok <==> json_parsed(s@) is Some,
        r matches Ok(v) ==> json_parsed(s@) == Some(v),
{
    serde_json::from_str::<serde_json::Value>(s).map_err(|e| e.to_string())
}

/// Relies on `serde_json::Value::get` and `Value::as_str`: a string field of
/// an object, read as a function of the document and the key alone.
#[verifier::external_body]
pub fn str_field(v: &serde_json::Value, key: &str) -> (r: Option<String>)
    ensures
        r is Some <==> json_str_field(*v, key@) is Some,
        r matches Some(s) ==> json_str_field(*v, key@) == Some(s@),
{
    v.get(key).and_then(|f| f.as_str()).map(|s| s.to_string())
}

/// Relies on `serde_json::Value::get` and `Value::as_i64`: an integer field
/// of an object, read as a function of the document and the key alone.
#[verifier::external_body]
pub fn i64_field(v: &serde_json::Value, key: &str) -> (r: Option<i64>)
    ensures
        r == json_i64_field(*v, key@),
{
    v.get(key).and_then(|f| f.as_i64())
}

/// Relies on `serde_json::Value::get`: the sub-document stored under a field,
/// read as a function of the document and the key alone.
#[verifier::external_body]
pub fn obj_field(v: &serde_json::Value, key: &str) -> (r: Option<serde_json::Value>)
    ensures
        r is Some <==> json_obj_field(*v, key@) is Some,
        r matches Some(f) ==> json_obj_field(*v, key@) == Some(f),
{
    v.get(key).cloned()
}

/// Relies on `uuid::Uuid::new_v4` and its `Display` form: a fresh random
/// identifier. Nothing is promised of the value beyond its hyphenated length.
#[verifier::external_body]
pub fn new_uuid_string() -> (r: String)
    ensures
        r@.len() == 36,
{
    uuid::Uuid::new_v4().to_string()
}

} // verus!
