//! Trusted surface over serde_json.
//!
//! Record field maps travel through the client as opaque JSON values, and
//! the error classifier probes a failed response's body for the service's
//! error envelope. Both lean on serde_json, declared and wrapped here;
//! nothing in this module is verified beyond its stated contracts.

use vstd::prelude::*;

verus! {

/// serde_json's JSON value type. The client carries values of it through
/// opaquely: nothing here reads inside one except through the wrappers
/// below.
#[verifier::external_type_specification]
#[verifier::external_body]
pub struct ExValue(serde_json::Value);

/// Relies on serde_json::Value's derived `Clone`: a field-by-field copy,
/// equal to the original.
pub assume_specification[ <serde_json::Value as Clone>::clone ](v: &serde_json::Value) -> (r: serde_json::Value)
    ensures
        r == *v,
;

/// Relies on serde_json::from_str::<Value>: `Some` exactly when the text
/// is valid JSON. Nothing is assumed about which texts parse or what
/// value comes back.
#[verifier::external_body]
pub(crate) fn parse_json(s: &str) -> (r: Option<serde_json::Value>) {
    serde_json::from_str(s).ok()
}

/// Relies on serde_json::Value::get with a string index: the value under
/// the key when `v` is a JSON object that has it, `None` otherwise.
#[verifier::external_body]
pub(crate) fn json_get<'a>(v: &'a serde_json::Value, key: &str) -> (r: Option<&'a serde_json::Value>) {
    v.get(key)
}

/// Relies on serde_json::Value::as_str: the content when `v` is a JSON
/// string, `None` otherwise.
#[verifier::external_body]
pub(crate) fn json_as_str(v: &serde_json::Value) -> (r: Option<String>) {
    match v.as_str() {
        Some(s) => Some(s.to_string()),
        None => None,
    }
}

} // verus!
