//! The record value objects that flow through every operation.

use vstd::prelude::*;

verus! {

/// A single record. Immutable value object: caller-constructed for
/// writes, server-constructed for reads.
///
/// A record sent for creation must have `id` absent; one sent for update
/// must have `id` present. The `fields` map is the caller-meaningful
/// payload and is carried through opaquely. `created_time` is assigned by
/// the server and never sent on writes.
#[derive(Debug)]
pub struct Record {
    /// The unique id the service assigned, absent before creation.
    pub id: Option<String>,
    /// String-keyed map of arbitrary JSON-typed values.
    pub fields: serde_json::Value,
    /// Server-assigned creation timestamp, read-only.
    pub created_time: Option<String>,
}

impl Clone for Record {
    /// A copy equal to the original.
    fn clone(&self) -> (r: Self)
        ensures
            r == *self,
    {
        let r = Record {
            id: self.id.clone(),
            fields: self.fields.clone(),
            created_time: self.created_time.clone(),
        };
        proof {
            assert(r.id == self.id);
            assert(r.created_time == self.created_time);
        }
        r
    }
}

/// One page of records as the service returns it, with the continuation
/// cursor. The cursor is absent exactly on the final page.
#[derive(Debug)]
pub struct RecordList {
    /// The page's records, in service order.
    pub records: Vec<Record>,
    /// Opaque continuation cursor for the next page request.
    pub offset: Option<String>,
}

/// Element-wise copy of a record list, equal to the original.
pub fn clone_records(rs: &Vec<Record>) -> (r: Vec<Record>)
    ensures
        r@ == rs@,
{
    let mut out: Vec<Record> = Vec::new();
    let mut i: usize = 0;
    while i < rs.len()
        invariant
            i <= rs@.len(),
            out@ == rs@.subrange(0, i as int),
        decreases rs@.len() - i,
    {
        let rec = &rs[i];
        out.push(rec.clone());
        proof {
            assert(out@ =~= rs@.subrange(0, i + 1));
        }
        i = i + 1;
    }
    proof {
        assert(out@ =~= rs@);
    }
    out
}

} // verus!
