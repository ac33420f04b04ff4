//! The crate's view of serde_json: the worker's response bodies arrive as
//! JSON text, are decoded by serde_json, and are carried through as opaque
//! values. Every item here is trusted; the logic that decides anything from
//! these results is verified in `proxy`.

use vstd::prelude::*;

verus! {

#[verifier::external_type_specification]
#[verifier::external_body]
pub struct ExJsonValue(serde_json::Value);

#[verifier::external_type_specification]
#[verifier::external_body]
pub struct ExJsonError(serde_json::Error);

/// Whether a text is valid JSON: the predicate that
/// `serde_json::from_str::<serde_json::Value>` decides. It depends on the
/// text alone.
pub uninterp spec fn json_parses(s: Seq<char>) -> bool;

/// The value that a valid JSON text parses to: the result of
/// `serde_json::from_str::<serde_json::Value>`, a function of the text
/// alone.
pub uninterp spec fn json_value_of(s: Seq<char>) -> serde_json::Value;

/// The field a JSON value holds under a key: what `serde_json::Value::get`
/// returns — None when the value is no object or lacks the key.
pub uninterp spec fn json_field(v: serde_json::Value, key: Seq<char>) -> Option<serde_json::Value>;

/// The boolean a JSON value is, if it is one: what
/// `serde_json::Value::as_bool` returns.
pub uninterp spec fn json_bool_of(v: serde_json::Value) -> Option<bool>;

/// Whether a JSON value is a number: what `serde_json::Value::is_number`
/// returns.
pub uninterp spec fn json_number(v: serde_json::Value) -> bool;

/// Relies on serde_json::from_str::<Value>: it returns Ok exactly on text
/// that is valid JSON, the parsed value depends on the text alone, and
/// malformed input is an Err, never a panic.
#[verifier::external_body]
pub fn json_from_str(s: &str) -> (r: Result<serde_json::Value, serde_json::Error>)
    ensures
        r is Ok <==> json_parses(s@),
        r matches Ok(v) ==> v == json_value_of(s@),
{
    serde_json::from_str(s)
}

/// Relies on serde_json::Value::get with a string index: Some of the value
/// under the key when the receiver is an object that has it, None
/// otherwise; a function of the receiver and the key alone.
#[verifier::external_body]
pub fn json_get<'a>(v: &'a serde_json::Value, key: &str) -> (r: Option<&'a serde_json::Value>)
    ensures
        r matches Some(x) ==> json_field(*v, key@) == Some(*x),
        r is None ==> json_field(*v, key@) is None,
{
    v.get(key)
}

/// Relies on serde_json::Value::as_bool: Some(b) exactly when the value is
/// the JSON boolean b; a function of the value alone.
#[verifier::external_body]
pub fn json_as_bool(v: &serde_json::Value) -> (r: Option<bool>)
    ensures
        r == json_bool_of(*v),
{
    v.as_bool()
}

/// Relies on serde_json::Value::is_number: true exactly when the value is a
/// JSON number; a function of the value alone.
#[verifier::external_body]
pub fn json_is_number(v: &serde_json::Value) -> (r: bool)
    ensures
        r == json_number(*v),
{
    v.is_number()
}

/// Relies on serde_json::Value's Clone impl: a deep copy, equal to the
/// original.
#[verifier::external_body]
pub fn json_clone(v: &serde_json::Value) -> (r: serde_json::Value)
    ensures
        r == *v,
{
    v.clone()
}

/// Relies on serde_json::Error's Display impl to describe a decoding
/// failure.
#[verifier::external_body]
pub fn json_error_message(e: &serde_json::Error) -> String {
    e.to_string()
}

} // verus!
