//! The request builder: URLs and query parameters for every operation.
//!
//! Pure construction, no I/O. The transport attaches these pairs and the
//! authorization header to the outgoing request; the paginated reader
//! reuses one pair list across all page requests, varying only the
//! cursor pair.

use vstd::prelude::*;
use vstd::string::StringExecFns;

use crate::digits::spec_decimal;
use crate::digits::u32_decimal;
use crate::params::ListRecordsParams;

verus! {

/// The character-level view of a list of query pairs.
pub open spec fn pairs_view(v: Seq<(String, String)>) -> Seq<(Seq<char>, Seq<char>)> {
    Seq::new(v.len(), |i: int| (v[i].0@, v[i].1@))
}

/// The query pairs a listing request carries for these options, in
/// fixed order: `maxRecords`, `view`, one `fields[]` pair per projected
/// field, then the sort field and direction. An absent option
/// contributes no pair at all.
pub open spec fn spec_query_pairs(p: ListRecordsParams) -> Seq<(Seq<char>, Seq<char>)> {
    (match p.max_records {
        Some(mr) => seq![("maxRecords"@, spec_decimal(mr as int))],
        None => Seq::empty(),
    }) + (match p.view {
        Some(v) => seq![("view"@, v@)],
        None => Seq::empty(),
    }) + (match p.fields {
        Some(fs) => Seq::new(fs@.len(), |i: int| ("fields[]"@, fs@[i]@)),
        None => Seq::empty(),
    }) + (match p.sort {
        Some(sd) => seq![("sort[0][field]"@, sd.0@), ("sort[0][direction]"@, sd.1@)],
        None => Seq::empty(),
    })
}

/// Builds the query pairs for one listing request.
#[verifier::loop_isolation(false)]
pub fn query_pairs(params: &ListRecordsParams) -> (r: Vec<(String, String)>)
    ensures
        pairs_view(r@) == spec_query_pairs(*params),
{
    let mut out: Vec<(String, String)> = Vec::new();
    if let Some(mr) = &params.max_records {
        out.push((String::from_str("maxRecords"), u32_decimal(*mr)));
    }
    let ghost head = pairs_view(out@);
    proof {
        assert(head =~~= (match params.max_records {
            Some(mr) => seq![("maxRecords"@, spec_decimal(mr as int))],
            None => Seq::<(Seq<char>, Seq<char>)>::empty(),
        }));
    }
    if let Some(v) = &params.view {
        out.push((String::from_str("view"), v.clone()));
    }
    let ghost head = pairs_view(out@);
    proof {
        assert(head =~~= (match params.max_records {
            Some(mr) => seq![("maxRecords"@, spec_decimal(mr as int))],
            None => Seq::<(Seq<char>, Seq<char>)>::empty(),
        }) + (match params.view {
            Some(v) => seq![("view"@, v@)],
            None => Seq::<(Seq<char>, Seq<char>)>::empty(),
        }));
    }
    if let Some(fs) = &params.fields {
        let ghost out0 = out@;
        let mut i: usize = 0;
        while i < fs.len()
            invariant
                i <= fs@.len(),
                out@.len() == out0.len() + i,
                forall|j: int| 0 <= j < out0.len() ==> out@[j] == out0[j],
                forall|j: int|
                    out0.len() <= j < out@.len() ==> (#[trigger] out@[j]).0@ == "fields[]"@
                        && out@[j].1@ == fs@[j - out0.len()]@,
            decreases fs@.len() - i,
        {
            out.push((String::from_str("fields[]"), fs[i].clone()));
            i = i + 1;
        }
        proof {
            assert(pairs_view(out@) =~~= head + Seq::new(
                fs@.len(),
                |j: int| ("fields[]"@, fs@[j]@),
            ));
        }
    }
    let ghost head = pairs_view(out@);
    proof {
        assert(head =~~= (match params.max_records {
            Some(mr) => seq![("maxRecords"@, spec_decimal(mr as int))],
            None => Seq::<(Seq<char>, Seq<char>)>::empty(),
        }) + (match params.view {
            Some(v) => seq![("view"@, v@)],
            None => Seq::<(Seq<char>, Seq<char>)>::empty(),
        }) + (match params.fields {
            Some(fs) => Seq::new(fs@.len(), |i: int| ("fields[]"@, fs@[i]@)),
            None => Seq::<(Seq<char>, Seq<char>)>::empty(),
        }));
    }
    if let Some(sd) = &params.sort {
        out.push((String::from_str("sort[0][field]"), sd.0.clone()));
        out.push((String::from_str("sort[0][direction]"), sd.1.clone()));
    }
    proof {
        assert(pairs_view(out@) =~~= spec_query_pairs(*params));
    }
    out
}

/// The query pair that attaches a continuation cursor to a page request.
pub fn offset_pair(cursor: &str) -> (r: (String, String))
    ensures
        r.0@ == "offset"@,
        r.1@ == cursor@,
{
    (String::from_str("offset"), cursor.to_owned())
}

/// The endpoint for a table: `{service}/{base}/{table}`.
pub fn base_url(base_id: &str, table_name: &str) -> (r: String)
    ensures
        r@ == "https://api.airtable.com/v0/"@ + base_id@ + "/"@ + table_name@,
{
    let mut s = String::from_str("https://api.airtable.com/v0/");
    s.append(base_id);
    s.append("/");
    s.append(table_name);
    s
}

/// The endpoint for a single record: `{service}/{base}/{table}/{id}`.
pub fn record_url(base_id: &str, table_name: &str, record_id: &str) -> (r: String)
    ensures
        r@ == "https://api.airtable.com/v0/"@ + base_id@ + "/"@ + table_name@ + "/"@
            + record_id@,
{
    let mut s = base_url(base_id, table_name);
    s.append("/");
    s.append(record_id);
    s
}

} // verus!
