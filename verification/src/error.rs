//! The error taxonomy and the classifier for failed responses.
//!
//! Every failure is modeled as data: nothing here retries, logs or
//! panics. The classifier turns a failed response's operation name,
//! status and body text into a message of one of three fixed shapes,
//! probing the body for the service's `{ "error": { "type", "message" } }`
//! envelope.

use vstd::prelude::*;
use vstd::string::StringExecFns;

use crate::digits::spec_decimal;
use crate::digits::u32_decimal;
use crate::jsonval::json_as_str;
use crate::jsonval::json_get;
use crate::jsonval::parse_json;
use crate::records::Record;

verus! {

/// Everything a client operation can fail with.
#[derive(Debug)]
pub enum AirtableError {
    /// The request could not be sent, or its response could not be read.
    Http(String),
    /// A response body could not be decoded into the expected shape.
    Json(String),
    /// A request was answered with a non-success status; carries the
    /// classified message.
    Other(String),
    /// A chunked bulk write stopped partway: everything written so far,
    /// everything not yet attempted, and the failing chunk's classified
    /// message. The only error kind that bundles successful side effects
    /// with failure.
    PartialSuccessError {
        /// Length of `processed`.
        processed_count: usize,
        /// Records successfully written, in chunk order, as the service
        /// echoed them.
        processed: Vec<Record>,
        /// Records not yet attempted, starting with the failed chunk, in
        /// original order.
        remaining: Vec<Record>,
        /// Classified message of the failing response.
        message: String,
    },
}

/// The headline each error variant describes itself with.
pub open spec fn spec_error_message(e: AirtableError) -> Seq<char> {
    match e {
        AirtableError::Http(m) => "HTTP request failed: "@ + m@,
        AirtableError::Json(m) => "JSON parsing error: "@ + m@,
        AirtableError::Other(m) => "Other error occurred: "@ + m@,
        AirtableError::PartialSuccessError { message, .. } => "Partial batch failure: "@
            + message@,
    }
}

impl AirtableError {
    /// Human-readable description of the failure.
    pub fn message(&self) -> (r: String)
        ensures
            r@ == spec_error_message(*self),
    {
        match self {
            AirtableError::Http(m) => {
                let mut s = String::from_str("HTTP request failed: ");
                s.append(m.as_str());
                s
            },
            AirtableError::Json(m) => {
                let mut s = String::from_str("JSON parsing error: ");
                s.append(m.as_str());
                s
            },
            AirtableError::Other(m) => {
                let mut s = String::from_str("Other error occurred: ");
                s.append(m.as_str());
                s
            },
            AirtableError::PartialSuccessError { message, .. } => {
                let mut s = String::from_str("Partial batch failure: ");
                s.append(message.as_str());
                s
            },
        }
    }
}

/// View of an optional string.
pub open spec fn opt_view(o: Option<String>) -> Option<Seq<char>> {
    match o {
        Some(s) => Some(s@),
        None => None,
    }
}

/// The classified message when the body carried the service's error
/// envelope: the extracted `type` and `message` strings, each replaced by
/// a fixed placeholder when absent.
pub open spec fn spec_envelope_message(
    op: Seq<char>,
    status: int,
    t: Option<Seq<char>>,
    m: Option<Seq<char>>,
) -> Seq<char> {
    op + " failed ("@ + spec_decimal(status) + "): "@ + (match t {
        Some(tt) => tt,
        None => "Unknown error type"@,
    }) + " - "@ + (match m {
        Some(mm) => mm,
        None => "No error message provided"@,
    })
}

/// The classified message when the body held no envelope: the raw body
/// text stands in.
pub open spec fn spec_raw_message(op: Seq<char>, status: int, body: Seq<char>) -> Seq<char> {
    op + " failed ("@ + spec_decimal(status) + "): "@ + body
}

/// The classified message when the body itself could not be read.
pub open spec fn spec_unreadable_message(op: Seq<char>, status: int, read_err: Seq<char>) -> Seq<
    char,
> {
    op + " failed ("@ + spec_decimal(status) + "), also could not read body: "@ + read_err
}

/// Everything the classifier can say of a response with this operation,
/// status and body: an envelope message for some extracted type/message
/// pair, or the raw-body message. Which of the two depends only on how
/// the body parses as JSON.
pub open spec fn is_classified_message(
    op: Seq<char>,
    status: int,
    body: Seq<char>,
    m: Seq<char>,
) -> bool {
    ||| m == spec_raw_message(op, status, body)
    ||| exists|t: Option<Seq<char>>, mm: Option<Seq<char>>|
        m == spec_envelope_message(op, status, t, mm)
}

/// Exact formatter over an already-extracted envelope: the envelope
/// message when one was found, the raw-body message otherwise.
pub fn classify_parts(
    op: &str,
    status: u16,
    parts: Option<(Option<String>, Option<String>)>,
    body: &str,
) -> (r: String)
    ensures
        (parts matches Some(p) ==> r@ == spec_envelope_message(
            op@,
            status as int,
            opt_view(p.0),
            opt_view(p.1),
        )),
        parts is None ==> r@ == spec_raw_message(op@, status as int, body@),
{
    let mut s = op.to_owned();
    match parts {
        Some((t, m)) => {
            s.append(" failed (");
            let dec = u32_decimal(status as u32);
            s.append(dec.as_str());
            s.append("): ");
            match &t {
                Some(tt) => s.append(tt.as_str()),
                None => s.append("Unknown error type"),
            }
            s.append(" - ");
            match &m {
                Some(mm) => s.append(mm.as_str()),
                None => s.append("No error message provided"),
            }
            proof {
                assert(s@ =~= spec_envelope_message(
                    op@,
                    status as int,
                    opt_view(t),
                    opt_view(m),
                ));
            }
            s
        },
        None => {
            s.append(" failed (");
            let dec = u32_decimal(status as u32);
            s.append(dec.as_str());
            s.append("): ");
            s.append(body);
            proof {
                assert(s@ =~= spec_raw_message(op@, status as int, body@));
            }
            s
        },
    }
}

/// Probes the body for the error envelope: `Some` when the body is JSON
/// with an `error` member, carrying that member's `type` and `message`
/// strings where they exist as strings.
fn extract_envelope(body: &str) -> Option<(Option<String>, Option<String>)> {
    match parse_json(body) {
        None => None,
        Some(v) => match json_get(&v, "error") {
            None => None,
            Some(err_obj) => {
                let t = match json_get(err_obj, "type") {
                    Some(x) => json_as_str(x),
                    None => None,
                };
                let m = match json_get(err_obj, "message") {
                    Some(x) => json_as_str(x),
                    None => None,
                };
                Some((t, m))
            },
        },
    }
}

/// Classifies one failed response: the envelope message when serde_json
/// finds the envelope in the body, the raw-body message otherwise.
/// Whatever the parse yields, the result is one of the classifier's fixed
/// shapes for this operation, status and body.
pub fn classify_response(op: &str, status: u16, body: &str) -> (r: String)
    ensures
        is_classified_message(op@, status as int, body@, r@),
{
    let parts = extract_envelope(body);
    let ghost gparts = parts;
    let r = classify_parts(op, status, parts, body);
    proof {
        if let Some(p) = gparts {
            assert(r@ == spec_envelope_message(
                op@,
                status as int,
                opt_view(p.0),
                opt_view(p.1),
            ));
        }
    }
    r
}

/// The structured error surfaced for a failed response: always the
/// `Other` variant, carrying the classified message.
pub fn handle_airtable_error(op: &str, status: u16, body: &str) -> (e: AirtableError)
    ensures
        e matches AirtableError::Other(m) && is_classified_message(
            op@,
            status as int,
            body@,
            m@,
        ),
{
    AirtableError::Other(classify_response(op, status, body))
}

/// The structured error when the failed response's body could not even be
/// read: reports the read failure alongside the status.
pub fn unreadable_body_error(op: &str, status: u16, read_err: &str) -> (e: AirtableError)
    ensures
        e matches AirtableError::Other(m) && m@ == spec_unreadable_message(
            op@,
            status as int,
            read_err@,
        ),
{
    let mut s = op.to_owned();
    s.append(" failed (");
    let dec = u32_decimal(status as u32);
    s.append(dec.as_str());
    s.append("), also could not read body: ");
    s.append(read_err);
    proof {
        assert(s@ =~= spec_unreadable_message(op@, status as int, read_err@));
    }
    AirtableError::Other(s)
}

} // verus!
