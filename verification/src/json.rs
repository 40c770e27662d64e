//! The trusted boundary to the serde_json crate: the names under which
//! the contracts speak of JSON parsing, and the wrappers that perform it.
//!
//! What a JSON text contains is a function of the text alone, so each
//! outcome is given a name here; the wrappers promise to return that
//! name's value, and everything downstream is verified against it.

use vstd::prelude::*;

verus! {

/// Whether a text is well-formed JSON, as serde_json parses it.
pub uninterp spec fn json_wf(text: Seq<char>) -> bool;

/// The unsigned integer under `key` when the text is a JSON object
/// whose field `key` holds an integer that fits in `u64`; `None`
/// otherwise.
pub uninterp spec fn json_u64_field_of(text: Seq<char>, key: Seq<char>) -> Option<u64>;

/// The string under `key` when the text is a JSON object whose field
/// `key` holds a string; `None` otherwise.
pub uninterp spec fn json_str_field_of(text: Seq<char>, key: Seq<char>) -> Option<Seq<char>>;

/// Relies on serde_json::from_str::<Value>: whether a text parses as
/// JSON depends on the text alone.
#[verifier::external_body]
pub fn json_well_formed(text: &str) -> (r: bool)
    ensures
        r == json_wf(text@),
{
    serde_json::from_str::<serde_json::Value>(text).is_ok()
}

/// Relies on serde_json::from_str::<Value>, Value::get and
/// Value::as_u64: the extracted integer depends on the text and the
/// key alone.
#[verifier::external_body]
pub fn json_u64_field(text: &str, key: &str) -> (r: Option<u64>)
    ensures
        r == json_u64_field_of(text@, key@),
{
    serde_json::from_str::<serde_json::Value>(text)
        .ok()
        .and_then(|v| v.get(key).and_then(|f| f.as_u64()))
}

/// Relies on serde_json::from_str::<Value>, Value::get and
/// Value::as_str: the extracted string depends on the text and the
/// key alone.
#[verifier::external_body]
pub fn json_str_field(text: &str, key: &str) -> (r: Option<String>)
    ensures
        match r {
            Some(s) => json_str_field_of(text@, key@) == Some(s@),
            None => json_str_field_of(text@, key@) is None,
        },
{
    serde_json::from_str::<serde_json::Value>(text)
        .ok()
        .and_then(|v| v.get(key).and_then(|f| f.as_str().map(|s| s.to_owned())))
}

} // verus!
