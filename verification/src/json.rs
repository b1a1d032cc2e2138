//! Trusted surface to the JSON crate.
//!
//! JSON documents are opaque to the verifier: the library carries them as
//! whole values and reads them only through the accessors declared here.
//! Each wrapper makes exactly one call into the JSON crate, and each
//! result that depends on the arguments alone is given a name, so that
//! callers' contracts can say which value was stored or read.

use vstd::prelude::*;

verus! {

#[verifier::external_type_specification]
#[verifier::external_body]
pub struct ExJsonValue(serde_json::Value);

/// The document that parsing a text yields: `Some` exactly on well-formed
/// JSON, as the JSON crate's parser decides it.  The answer depends on
/// the text alone.
pub uninterp spec fn spec_json_doc(s: Seq<char>) -> Option<serde_json::Value>;

/// The JSON string value wrapping a raw text.  Depends on the text alone.
pub uninterp spec fn spec_json_text(s: Seq<char>) -> serde_json::Value;

/// What looking a key up in a value yields: `Some` exactly when the value
/// is an object with that key.  Depends on the value and the key alone.
pub uninterp spec fn spec_json_get(v: serde_json::Value, key: Seq<char>) -> Option<
    serde_json::Value,
>;

/// The text of a value: `Some` exactly when it is a JSON string.  Depends
/// on the value alone.
pub uninterp spec fn spec_json_as_str(v: serde_json::Value) -> Option<Seq<char>>;

/// The boolean of a value: `Some` exactly when it is a JSON boolean.
/// Depends on the value alone.
pub uninterp spec fn spec_json_as_bool(v: serde_json::Value) -> Option<bool>;

/// The number of a value: `Some` exactly when it is a non-negative JSON
/// integer in range.  Depends on the value alone.
pub uninterp spec fn spec_json_as_u64(v: serde_json::Value) -> Option<u64>;

/// Relies on serde_json::from_str: parses a JSON document, succeeding
/// exactly on well-formed input; the same text always yields the same
/// document.
#[verifier::external_body]
pub fn json_parse(s: &str) -> (r: Option<serde_json::Value>)
    ensures
        r == spec_json_doc(s@),
{
    serde_json::from_str::<serde_json::Value>(s).ok()
}

/// Relies on serde_json::Value::String: wraps raw text as a JSON string
/// value.
#[verifier::external_body]
pub fn json_text(s: String) -> (r: serde_json::Value)
    ensures
        r == spec_json_text(s@),
{
    serde_json::Value::String(s)
}

/// Relies on serde_json::Value::get: looks a key up in a JSON object,
/// `None` when the value is no object or the key is absent.
#[verifier::external_body]
pub fn json_get<'a>(v: &'a serde_json::Value, key: &str) -> (r: Option<&'a serde_json::Value>)
    ensures
        r is Some <==> spec_json_get(*v, key@) is Some,
        r matches Some(x) ==> spec_json_get(*v, key@) == Some(*x),
{
    v.get(key)
}

/// Relies on serde_json::Value::as_str: the borrowed text when the value
/// is a JSON string, `None` otherwise.
#[verifier::external_body]
pub fn json_as_str<'a>(v: &'a serde_json::Value) -> (r: Option<&'a str>)
    ensures
        r is Some <==> spec_json_as_str(*v) is Some,
        r matches Some(s) ==> spec_json_as_str(*v) == Some(s@),
{
    v.as_str()
}

/// Relies on serde_json::Value::as_bool: the boolean when the value is a
/// JSON boolean, `None` otherwise.
#[verifier::external_body]
pub fn json_as_bool(v: &serde_json::Value) -> (r: Option<bool>)
    ensures
        r == spec_json_as_bool(*v),
{
    v.as_bool()
}

/// Relies on serde_json::Value::as_u64: the number when the value is a
/// non-negative JSON integer in range, `None` otherwise.
#[verifier::external_body]
pub fn json_as_u64(v: &serde_json::Value) -> (r: Option<u64>)
    ensures
        r == spec_json_as_u64(*v),
{
    v.as_u64()
}

} // verus!
