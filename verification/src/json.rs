//! What the library takes on trust from `serde_json`: nothing here is
//! proved. A document is an opaque value; its members and what they hold
//! are named, and each call is said to return what its name stands for.

use vstd::prelude::*;

verus! {

/// A JSON value of `serde_json`, opaque to the verifier.
#[verifier::external_type_specification]
#[verifier::external_body]
pub struct ExJsonValue(serde_json::Value);

/// The error of `serde_json`, opaque to the verifier.
#[verifier::external_type_specification]
#[verifier::external_body]
pub struct ExJsonError(serde_json::Error);

/// The value that `serde_json::from_str` reads from `text`, or `None` where
/// it reports an error.
pub uninterp spec fn json_parse(text: Seq<char>) -> Option<serde_json::Value>;

/// The members of a JSON object by key; no member at all for a value that is
/// not an object.
pub uninterp spec fn json_members(value: serde_json::Value) -> Map<Seq<char>, serde_json::Value>;

/// The number a JSON value holds, where it is an integer from 0 to
/// `u64::MAX`; `None` for any other value.
pub uninterp spec fn json_u64(value: serde_json::Value) -> Option<u64>;

/// The truth value a JSON value holds, where it is `true` or `false`; `None`
/// for any other value.
pub uninterp spec fn json_bool(value: serde_json::Value) -> Option<bool>;

/// Reads `text` with `serde_json::from_str`, asking for a
/// `serde_json::Value`.
///
/// Trusted: the outcome depends on the text alone, so it has a name,
/// `json_parse`. Nothing is said about which texts are JSON.
#[verifier::external_body]
pub(crate) fn parse_document(text: &str) -> (r: Result<serde_json::Value, serde_json::Error>)
    ensures
        match r {
            Ok(value) => json_parse(text@) == Some(value),
            Err(_) => json_parse(text@) is None,
        },
{
    serde_json::from_str::<serde_json::Value>(text)
}

/// Looks `key` up with `serde_json::Value::get`.
///
/// Trusted: with a string key, `get` returns the member of that key if the
/// value is an object that has one, and `None` otherwise.
#[verifier::external_body]
pub(crate) fn member<'a>(value: &'a serde_json::Value, key: &str) -> (r: Option<&'a serde_json::Value>)
    ensures
        r == (if json_members(*value).contains_key(key@) {
            Some(&json_members(*value)[key@])
        } else {
            None
        }),
{
    value.get(key)
}

/// `serde_json::Value::as_u64` returns the number where the value is an
/// integer that fits `u64`, and `None` otherwise: what `json_u64` names.
pub assume_specification[ serde_json::Value::as_u64 ](value: &serde_json::Value) -> (r: Option<u64>)
    ensures
        r == json_u64(*value),
;

/// `serde_json::Value::as_bool` returns the truth value where the value is a
/// Boolean, and `None` otherwise: what `json_bool` names.
pub assume_specification[ serde_json::Value::as_bool ](value: &serde_json::Value) -> (r: Option<bool>)
    ensures
        r == json_bool(*value),
;

} // verus!
