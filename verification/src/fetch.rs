//! The single-record fetch: all-or-nothing, with a classified error on
//! any failed response.

use vstd::prelude::*;

use crate::error::AirtableError;
use crate::error::handle_airtable_error;
use crate::error::is_classified_message;
use crate::records::Record;

verus! {

/// The transport's outcome for a single-record request.
pub enum FetchReply {
    /// Success status, body decoded into the record.
    Fetched { record: Record },
    /// Non-success status: status code and body text, classified by the
    /// fetch.
    Rejected { status: u16, body: String },
    /// Success status, but the body did not decode as a record; carries
    /// the decode failure's description.
    Malformed { detail: String },
    /// The request could not be sent at all.
    TransportFailed { detail: String },
}

/// What a single-record fetch returns for the transport's reply: the
/// record on success, otherwise the classified error.
pub open spec fn fetch_result(
    reply: FetchReply,
    r: Result<Record, AirtableError>,
) -> bool {
    match reply {
        FetchReply::Fetched { record } => r matches Ok(rec) && rec == record,
        FetchReply::Rejected { status, body } => {
            &&& r matches Err(e)
            &&& e matches AirtableError::Other(m) && is_classified_message(
                "Get single record"@,
                status as int,
                body@,
                m@,
            )
        },
        FetchReply::Malformed { detail } => {
            r matches Err(e) && e matches AirtableError::Json(m) && m@ == detail@
        },
        FetchReply::TransportFailed { detail } => {
            r matches Err(e) && e matches AirtableError::Http(m) && m@ == detail@
        },
    }
}

/// Fetches one record: hands the decoded record through on success, and
/// classifies any failed response at once. All-or-nothing: no partial
/// result exists for a single fetch.
pub fn get_record(reply: FetchReply) -> (r: Result<Record, AirtableError>)
    ensures
        fetch_result(reply, r),
{
    match reply {
        FetchReply::Fetched { record } => Ok(record),
        FetchReply::Rejected { status, body } => Err(
            handle_airtable_error("Get single record", status, body.as_str()),
        ),
        FetchReply::Malformed { detail } => Err(AirtableError::Json(detail)),
        FetchReply::TransportFailed { detail } => Err(AirtableError::Http(detail)),
    }
}

} // verus!
