//! Trusted boundary to `serde_json`: the library reads the fields of a parsed
//! JSON tree through these few declarations and wrappers. A
//! `serde_json::Value` is opaque here, so the wrappers state nothing about
//! what a value holds; every decision on the extracted plain values is made
//! by verified code in the decoding module, and what a whole response body
//! extracts to is pinned there by named results on the body text.

use vstd::prelude::*;

verus! {

/// Relies on `serde_json::Value` being a plain data type; values of it are
/// only carried between the wrappers below, never inspected directly.
#[verifier::external_type_specification]
#[verifier::external_body]
pub struct ExValue(serde_json::Value);

/// Relies on `serde_json::Value::get`: `Some` exactly when the value is an
/// object with this key.
#[verifier::external_body]
pub(crate) fn json_get<'a>(v: &'a serde_json::Value, key: &str) -> Option<&'a serde_json::Value> {
    v.get(key)
}

/// Relies on `serde_json::Value::as_str`: `Some` exactly when the value is a
/// JSON string; the text is copied out.
#[verifier::external_body]
pub(crate) fn json_str(v: &serde_json::Value) -> Option<String> {
    match v.as_str() {
        Some(s) => Some(s.to_owned()),
        None => None,
    }
}

/// Relies on `serde_json::Value::as_u64`: `Some` exactly when the value is an
/// integer that fits in `u64`.
#[verifier::external_body]
pub(crate) fn json_u64(v: &serde_json::Value) -> Option<u64> {
    v.as_u64()
}

/// Relies on `serde_json::Value::is_number`: true exactly when the value is a
/// JSON number.
#[verifier::external_body]
pub(crate) fn json_is_number(v: &serde_json::Value) -> bool {
    v.is_number()
}

} // verus!
