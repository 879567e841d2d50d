//! The client's immutable configuration: credentials and base
//! identifier, created once and read by every operation.

use vstd::prelude::*;
use vstd::string::StringExecFns;

verus! {

/// The client configuration every request is built from. Immutable
/// after construction: operations only read it, so concurrent calls
/// share it safely.
pub struct AirtableClient {
    /// Bearer token presented on every request.
    pub api_key: String,
    /// Identifier of the base whose tables are addressed.
    pub base_id: String,
    /// Whether the service may coerce field values on writes.
    pub typecast: Option<bool>,
}

impl AirtableClient {
    /// A client for the given credentials and base.
    pub fn new(api_key: &str, base_id: &str) -> (c: Self)
        ensures
            c.api_key@ == api_key@,
            c.base_id@ == base_id@,
            c.typecast == Some(true),
    {
        AirtableClient {
            api_key: api_key.to_owned(),
            base_id: base_id.to_owned(),
            typecast: Some(true),
        }
    }

    /// The authorization header value carried by every request.
    pub fn auth_header_value(&self) -> (r: String)
        ensures
            r@ == "Bearer "@ + self.api_key@,
    {
        let mut s = String::from_str("Bearer ");
        s.append(self.api_key.as_str());
        s
    }
}

} // verus!
