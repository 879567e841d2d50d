//! The paginated reader: follows the service's continuation cursor page
//! by page and merges every page's records into one ordered result.
//!
//! A read is all-or-nothing: a failed page request classifies the
//! response and surfaces it at once, exposing no partial accumulation,
//! because a caller cannot resume a list mid-stream without the cursor.

use vstd::prelude::*;

use crate::error::AirtableError;
use crate::error::handle_airtable_error;
use crate::error::is_classified_message;
use crate::records::Record;
use crate::records::RecordList;
use crate::records::clone_records;

verus! {

/// The transport's outcome for one page request.
pub enum PageReply {
    /// Success status, body decoded: the page's records and its
    /// continuation cursor, absent exactly on the final page.
    Page { page: RecordList },
    /// Non-success status: status code and body text, classified by the
    /// reader.
    Rejected { status: u16, body: String },
    /// Success status, but the body did not decode as a record page;
    /// carries the decode failure's description.
    Malformed { detail: String },
    /// The request could not be sent at all.
    TransportFailed { detail: String },
}

/// The walk stops on this reply: any failure, or a page without a
/// continuation cursor.
pub open spec fn page_terminates(r: PageReply) -> bool {
    match r {
        PageReply::Page { page } => page.offset is None,
        _ => true,
    }
}

/// No reply before `k` stops the walk: each is a full page carrying a
/// cursor.
pub open spec fn no_stop_before(replies: Seq<PageReply>, k: int) -> bool {
    forall|i: int| 0 <= i < k ==> !page_terminates(#[trigger] replies[i])
}

/// Concatenation of the records of the first `k` pages, in page order
/// and in-page order.
pub open spec fn pages_concat(replies: Seq<PageReply>, k: int) -> Seq<Record>
    decreases k,
{
    if k <= 0 {
        Seq::empty()
    } else {
        pages_concat(replies, k - 1) + replies[k - 1]->Page_page.records@
    }
}

/// What the walk returns when reply `k` is the one it stops on.
pub open spec fn list_result_at(
    replies: Seq<PageReply>,
    k: int,
    r: Result<Vec<Record>, AirtableError>,
) -> bool {
    match replies[k] {
        PageReply::Page { page } => {
            &&& page.offset is None
            &&& r matches Ok(v) && v@ == pages_concat(replies, k + 1)
        },
        PageReply::Rejected { status, body } => {
            &&& r matches Err(e)
            &&& e matches AirtableError::Other(m) && is_classified_message(
                "List records"@,
                status as int,
                body@,
                m@,
            )
        },
        PageReply::Malformed { detail } => {
            r matches Err(e) && e matches AirtableError::Json(m) && m@ == detail@
        },
        PageReply::TransportFailed { detail } => {
            r matches Err(e) && e matches AirtableError::Http(m) && m@ == detail@
        },
    }
}

/// Reply `k` is the first the walk stops on.
pub open spec fn is_stop_index(replies: Seq<PageReply>, k: int) -> bool {
    &&& 0 <= k < replies.len()
    &&& no_stop_before(replies, k)
    &&& page_terminates(replies[k])
}

/// Accumulates one pagination walk: the records merged so far and the
/// cursor the next request must carry. The transport loop sends one
/// request per page, reports each outcome, and the reader does every
/// decision.
pub struct Paginator {
    /// Records of the pages read so far, in page order.
    pub collected: Vec<Record>,
    /// Cursor to attach to the next page request; absent on the first
    /// request.
    pub cursor: Option<String>,
    /// Whether a page without a cursor has ended the walk.
    pub finished: bool,
}

impl Paginator {
    /// A walk that has read nothing yet: no cursor, not finished.
    pub fn new() -> (p: Self)
        ensures
            p.collected@ == Seq::<Record>::empty(),
            p.cursor is None,
            !p.finished,
    {
        Paginator { collected: Vec::new(), cursor: None, finished: false }
    }

    /// Accounts one decoded page: its records join the accumulator in
    /// order, and its cursor decides whether the walk goes on.
    pub fn on_page(&mut self, page: &RecordList)
        requires
            !old(self).finished,
        ensures
            final(self).collected@ == old(self).collected@ + page.records@,
            final(self).cursor == page.offset,
            final(self).finished == (page.offset is None),
    {
        let mut recs = clone_records(&page.records);
        self.collected.append(&mut recs);
        self.cursor = page.offset.clone();
        self.finished = self.cursor.is_none();
        proof {
            assert(final(self).cursor == page.offset);
        }
    }

    /// The full merged result, once the final page has been read.
    pub fn into_records(self) -> (r: Vec<Record>)
        requires
            self.finished,
        ensures
            r@ == self.collected@,
    {
        self.collected
    }
}

/// Walks one pagination sequence over the transport's page replies:
/// pages in order, stop at the first failure or cursor-less page, and
/// merge every page's records in page order. Exactly the replies up to
/// and including the stopping one are consumed.
#[verifier::loop_isolation(false)]
pub fn list_records(replies: &Vec<PageReply>) -> (r: Result<Vec<Record>, AirtableError>)
    requires
        exists|i: int| 0 <= i < replies@.len() && page_terminates(#[trigger] replies@[i]),
    ensures
        exists|k: int| #[trigger] is_stop_index(replies@, k) && list_result_at(replies@, k, r),
{
    let n = replies.len();
    let mut pag = Paginator::new();
    let mut j: usize = 0;
    loop
        invariant
            !pag.finished,
            n == replies@.len(),
            j <= n,
            no_stop_before(replies@, j as int),
            pag.collected@ == pages_concat(replies@, j as int),
        decreases replies@.len() - j,
    {
        proof {
            let i0 = choose|i: int|
                0 <= i < replies@.len() && page_terminates(#[trigger] replies@[i]);
            assert(j as int <= i0);
            assert((j as int) < replies@.len());
        }
        let rep = &replies[j];
        match rep {
            PageReply::Page { page } => {
                pag.on_page(page);
                proof {
                    assert(pag.collected@ =~= pages_concat(replies@, j + 1));
                }
                if pag.finished {
                    proof {
                        assert(is_stop_index(replies@, j as int));
                    }
                    let ghost gk = j as int;
                    let out = pag.into_records();
                    proof {
                        assert(list_result_at(replies@, gk, Ok(out)));
                    }
                    return Ok(out);
                }
                j = j + 1;
            },
            PageReply::Rejected { status, body } => {
                let e = handle_airtable_error("List records", *status, body.as_str());
                proof {
                    assert(is_stop_index(replies@, j as int));
                    assert(list_result_at(replies@, j as int, Err(e)));
                }
                return Err(e);
            },
            PageReply::Malformed { detail } => {
                let e = AirtableError::Json(detail.clone());
                proof {
                    assert(is_stop_index(replies@, j as int));
                    assert(list_result_at(replies@, j as int, Err(e)));
                }
                return Err(e);
            },
            PageReply::TransportFailed { detail } => {
                let e = AirtableError::Http(detail.clone());
                proof {
                    assert(is_stop_index(replies@, j as int));
                    assert(list_result_at(replies@, j as int, Err(e)));
                }
                return Err(e);
            },
        }
    }
}

/// Pagination terminates and merges in page order: when every reply is
/// a full page and each page but the last carries a continuation
/// cursor, the walk stops exactly on the last page — it consumes all
/// `pageCount` replies — and returns the concatenation of every page's
/// records, in page order.
pub proof fn lemma_pagination_full_walk(
    replies: Seq<PageReply>,
    k: int,
    r: Result<Vec<Record>, AirtableError>,
)
    requires
        replies.len() > 0,
        forall|i: int| 0 <= i < replies.len() ==> (#[trigger] replies[i]) is Page,
        forall|i: int|
            0 <= i < replies.len() - 1 ==> (#[trigger] replies[i])->Page_page.offset is Some,
        replies[replies.len() - 1]->Page_page.offset is None,
        is_stop_index(replies, k),
        list_result_at(replies, k, r),
    ensures
        k == replies.len() - 1,
        r matches Ok(v) && v@ == pages_concat(replies, replies.len() as int),
{
    if k < replies.len() - 1 {
        assert(page_terminates(replies[k]));
        assert(replies[k]->Page_page.offset is Some);
    }
}

} // verus!
