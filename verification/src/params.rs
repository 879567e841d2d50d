//! Options accepted by a record-listing call.

use vstd::prelude::*;

verus! {

/// Options for listing records: each one is independently optional and an
/// absent option is omitted from the outgoing request altogether.
pub struct ListRecordsParams {
    /// Named view to read from.
    pub view: Option<String>,
    /// Global cap on the number of records returned across all pages.
    pub max_records: Option<u32>,
    /// Projection: only these fields are returned.
    pub fields: Option<Vec<String>>,
    /// Single-field sort: field name and direction.
    pub sort: Option<(String, String)>,
}

impl Default for ListRecordsParams {
    /// Every option absent.
    fn default() -> (r: Self)
        ensures
            r.view is None,
            r.max_records is None,
            r.fields is None,
            r.sort is None,
    {
        ListRecordsParams { view: None, max_records: None, fields: None, sort: None }
    }
}

impl ListRecordsParams {
    /// Fresh parameter set with every option absent.
    pub fn new() -> (r: Self)
        ensures
            r.view is None,
            r.max_records is None,
            r.fields is None,
            r.sort is None,
    {
        Self::default()
    }
}

} // verus!
