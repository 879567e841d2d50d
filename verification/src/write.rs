//! The batched writer: bulk creates and updates, split into
//! service-sized chunks with exact resume-after-failure accounting.
//!
//! The input list is partitioned into contiguous chunks of at most
//! `CHUNK_SIZE` records, in original order; one write request carries
//! exactly one chunk, and the chunk is the unit of atomicity. On the
//! first failed chunk the writer stops and reports everything written so
//! far together with everything not yet attempted, so a caller can
//! resume without guessing which records already landed.

use vstd::prelude::*;

use crate::error::AirtableError;
use crate::error::classify_response;
use crate::error::is_classified_message;
use crate::records::Record;
use crate::records::clone_records;

verus! {

/// Most records one write request may carry: the service-imposed cap.
pub const CHUNK_SIZE: usize = 10;

/// Number of chunks a list of `n` records is split into.
pub open spec fn chunk_count(n: int) -> int {
    (n + CHUNK_SIZE - 1) / (CHUNK_SIZE as int)
}

/// First record index of chunk `k`.
pub open spec fn chunk_start(k: int) -> int {
    k * (CHUNK_SIZE as int)
}

/// One past the last record index of the chunk starting at `start`, in a
/// list of `n` records.
pub open spec fn chunk_end(n: int, start: int) -> int {
    if start + CHUNK_SIZE <= n {
        start + (CHUNK_SIZE as int)
    } else {
        n
    }
}

/// The transport's outcome for one chunk's write request.
pub enum ChunkReply {
    /// Success status: the records the service echoed back for the
    /// chunk, ids and timestamps filled in, in the order it returned
    /// them.
    Accepted { records: Vec<Record> },
    /// Non-success status: status code and body text, classified by the
    /// writer.
    Rejected { status: u16, body: String },
    /// Success status, but the body did not decode into the expected
    /// shape; carries the decode failure's description.
    Malformed { detail: String },
    /// The request could not be sent at all.
    TransportFailed { detail: String },
}

/// Every reply before `k` reports an accepted chunk.
pub open spec fn accepted_upto(replies: Seq<ChunkReply>, k: int) -> bool {
    forall|i: int| 0 <= i < k ==> replies[i] is Accepted
}

/// Concatenation of the echoed records of the first `k` replies, in
/// chunk order.
pub open spec fn echoed_concat(replies: Seq<ChunkReply>, k: int) -> Seq<Record>
    decreases k,
{
    if k <= 0 {
        Seq::empty()
    } else {
        echoed_concat(replies, k - 1) + replies[k - 1]->Accepted_records@
    }
}

/// Each accepted reply echoes exactly one record per record sent: the
/// shape the writer demands of a decoded success body.
pub open spec fn echo_lens_match(n: int, replies: Seq<ChunkReply>) -> bool {
    forall|i: int|
        0 <= i < replies.len() && replies[i] is Accepted
            ==> (#[trigger] replies[i]->Accepted_records)@.len() == chunk_end(n, chunk_start(i))
            - chunk_start(i)
}

/// The error owed when chunk `k` is the first whose reply is not
/// `Accepted`.
pub open spec fn failure_result(
    op: Seq<char>,
    records: Seq<Record>,
    replies: Seq<ChunkReply>,
    k: int,
    e: AirtableError,
) -> bool {
    match replies[k] {
        ChunkReply::Rejected { status, body } => {
            &&& e matches AirtableError::PartialSuccessError {
                processed_count,
                processed,
                remaining,
                message,
            }
            &&& processed@ == echoed_concat(replies, k)
            &&& processed_count == processed@.len()
            &&& remaining@ == records.subrange(chunk_start(k), records.len() as int)
            &&& is_classified_message(op, status as int, body@, message@)
        },
        ChunkReply::Malformed { detail } => {
            &&& e matches AirtableError::PartialSuccessError {
                processed_count,
                processed,
                remaining,
                message,
            }
            &&& processed@ == echoed_concat(replies, k)
            &&& processed_count == processed@.len()
            &&& remaining@ == records.subrange(chunk_start(k), records.len() as int)
            &&& message@ == detail@
        },
        ChunkReply::TransportFailed { detail } => {
            e matches AirtableError::Http(m) && m@ == detail@
        },
        ChunkReply::Accepted { .. } => false,
    }
}

/// Chunk `k` is the first whose reply is not `Accepted`.
pub open spec fn is_first_failure(replies: Seq<ChunkReply>, k: int) -> bool {
    &&& 0 <= k < replies.len()
    &&& accepted_upto(replies, k)
    &&& !(replies[k] is Accepted)
}

/// What a bulk write returns, as a relation between the input, the
/// transport's chunk replies, and the result: the concatenated echoes
/// when every chunk was accepted, otherwise the error owed at the first
/// chunk that was not.
pub open spec fn write_result(
    op: Seq<char>,
    records: Seq<Record>,
    replies: Seq<ChunkReply>,
    r: Result<Vec<Record>, AirtableError>,
) -> bool {
    if accepted_upto(replies, replies.len() as int) {
        r matches Ok(v) && v@ == echoed_concat(replies, replies.len() as int)
    } else {
        exists|k: int|
            #[trigger] is_first_failure(replies, k) && (r matches Err(e) && failure_result(
                op,
                records,
                replies,
                k,
                e,
            ))
    }
}

/// Tracks one chunked bulk write: which chunk-aligned prefix of the
/// input successful writes have covered, and what the service echoed
/// back for it. The transport loop asks for the next chunk, reports each
/// outcome, and the writer does every decision and all accounting.
pub struct BatchWriter {
    /// The full input, in caller order.
    pub records: Vec<Record>,
    /// Records echoed by the service for the chunks written so far, in
    /// chunk order.
    pub processed: Vec<Record>,
    /// Index of the first record not yet covered by a successful write.
    pub cursor: usize,
}

impl BatchWriter {
    /// The writer covers a chunk-aligned prefix of its input, one echoed
    /// record per input record covered.
    pub open spec fn wf(&self) -> bool {
        &&& self.cursor <= self.records@.len()
        &&& self.processed@.len() == self.cursor
        &&& (self.cursor as int % (CHUNK_SIZE as int) == 0 || self.cursor == self.records@.len())
    }

    /// A writer that has written nothing yet.
    pub fn new(records: Vec<Record>) -> (w: Self)
        ensures
            w.wf(),
            w.records@ == records@,
            w.processed@ == Seq::<Record>::empty(),
            w.cursor == 0,
    {
        BatchWriter { records, processed: Vec::new(), cursor: 0 }
    }

    /// Whether a chunk remains to be written.
    pub fn has_pending(&self) -> (b: bool)
        ensures
            b == (self.cursor < self.records@.len()),
    {
        self.cursor < self.records.len()
    }

    /// The next chunk to send: at most `CHUNK_SIZE` records starting at
    /// the cursor, in original order.
    pub fn current_chunk(&self) -> (c: Vec<Record>)
        requires
            self.cursor < self.records@.len(),
        ensures
            c@ == self.records@.subrange(
                self.cursor as int,
                chunk_end(self.records@.len() as int, self.cursor as int),
            ),
    {
        let end = if self.records.len() - self.cursor > CHUNK_SIZE {
            self.cursor + CHUNK_SIZE
        } else {
            self.records.len()
        };
        let mut out: Vec<Record> = Vec::new();
        let mut i = self.cursor;
        while i < end
            invariant
                self.cursor <= i <= end <= self.records@.len(),
                out@ == self.records@.subrange(self.cursor as int, i as int),
            decreases end - i,
        {
            let rec = &self.records[i];
            out.push(rec.clone());
            proof {
                assert(out@ =~= self.records@.subrange(self.cursor as int, i + 1));
            }
            i = i + 1;
        }
        proof {
            assert(end == chunk_end(self.records@.len() as int, self.cursor as int));
        }
        out
    }

    /// Accounts one accepted chunk: the echo joins `processed` and the
    /// cursor advances past the chunk.
    pub fn record_success(&mut self, echoed: Vec<Record>)
        requires
            old(self).wf(),
            old(self).cursor < old(self).records@.len(),
            echoed@.len() == chunk_end(old(self).records@.len() as int, old(self).cursor as int)
                - old(self).cursor,
        ensures
            final(self).wf(),
            final(self).records@ == old(self).records@,
            final(self).processed@ == old(self).processed@ + echoed@,
            final(self).cursor == chunk_end(
                old(self).records@.len() as int,
                old(self).cursor as int,
            ),
    {
        let mut e = echoed;
        self.processed.append(&mut e);
        let end = if self.records.len() - self.cursor > CHUNK_SIZE {
            self.cursor + CHUNK_SIZE
        } else {
            self.records.len()
        };
        self.cursor = end;
    }

    /// A failed chunk: the error that reports everything echoed so far
    /// and every record from the failed chunk on, exactly as the caller
    /// handed them in, split at the failed chunk's first record.
    pub fn abort(self, message: String) -> (e: AirtableError)
        requires
            self.cursor <= self.records@.len(),
        ensures
            e matches AirtableError::PartialSuccessError {
                processed_count,
                processed,
                remaining,
                message: m,
            } && processed@ == self.processed@ && processed_count == self.processed@.len()
                && remaining@ == self.records@.subrange(
                self.cursor as int,
                self.records@.len() as int,
            ) && m == message,
    {
        let mut remaining: Vec<Record> = Vec::new();
        let mut i = self.cursor;
        while i < self.records.len()
            invariant
                self.cursor <= i <= self.records@.len(),
                remaining@ == self.records@.subrange(self.cursor as int, i as int),
            decreases self.records@.len() - i,
        {
            let rec = &self.records[i];
            remaining.push(rec.clone());
            proof {
                assert(remaining@ =~= self.records@.subrange(self.cursor as int, i + 1));
            }
            i = i + 1;
        }
        let processed_count = self.processed.len();
        AirtableError::PartialSuccessError {
            processed_count,
            processed: self.processed,
            remaining,
            message,
        }
    }

    /// The full echoed result, once no chunk is left.
    pub fn into_processed(self) -> (r: Vec<Record>)
        requires
            self.cursor >= self.records@.len(),
        ensures
            r@ == self.processed@,
    {
        self.processed
    }
}

/// Drives one bulk write over the transport's chunk replies: chunks in
/// order, stop at the first chunk not accepted.
#[verifier::loop_isolation(false)]
fn run_chunks(op: &str, records: Vec<Record>, replies: &Vec<ChunkReply>) -> (r: Result<
    Vec<Record>,
    AirtableError,
>)
    requires
        replies@.len() == chunk_count(records@.len() as int),
        echo_lens_match(records@.len() as int, replies@),
    ensures
        write_result(op@, records@, replies@, r),
{
    let ghost recs = records@;
    let ghost n = records@.len() as int;
    let n_chunks = replies.len();
    let mut w = BatchWriter::new(records);
    let mut k: usize = 0;
    while k < n_chunks
        invariant
            w.wf(),
            w.records@ == recs,
            n == recs.len() as int,
            n_chunks == replies@.len(),
            replies@.len() == chunk_count(n),
            echo_lens_match(n, replies@),
            k <= n_chunks,
            accepted_upto(replies@, k as int),
            w.processed@ == echoed_concat(replies@, k as int),
            w.cursor as int == vstd::math::min(chunk_start(k as int), n),
        decreases n_chunks - k,
    {
        proof {
            // chunk k exists, so its start lies strictly inside the input
            assert(chunk_start(k as int) < n) by {
                assert(chunk_start(chunk_count(n) - 1) < n) by {
                    assert(chunk_count(n) == (n + CHUNK_SIZE - 1) / (CHUNK_SIZE as int));
                };
                assert(chunk_start(k as int) <= chunk_start(chunk_count(n) - 1)) by {
                    assert((k as int) * (CHUNK_SIZE as int) <= (chunk_count(n) - 1) * (
                    CHUNK_SIZE as int)) by (nonlinear_arith)
                        requires
                            (k as int) <= chunk_count(n) - 1,
                            CHUNK_SIZE == 10,
                    ;
                };
            }
        }
        let rep = &replies[k];
        match rep {
            ChunkReply::Accepted { records: rs } => {
                let echoed = clone_records(rs);
                w.record_success(echoed);
                k = k + 1;
                proof {
                    assert(accepted_upto(replies@, k as int));
                    assert(w.processed@ =~= echoed_concat(replies@, k as int));
                }
            },
            ChunkReply::Rejected { status, body } => {
                let msg = classify_response(op, *status, body.as_str());
                let ghost gk = k as int;
                let e = w.abort(msg);
                proof {
                    assert(is_first_failure(replies@, gk));
                    assert(failure_result(op@, recs, replies@, gk, e));
                    assert(!accepted_upto(replies@, replies@.len() as int));
                }
                return Err(e);
            },
            ChunkReply::Malformed { detail } => {
                let msg = detail.clone();
                let ghost gk = k as int;
                let e = w.abort(msg);
                proof {
                    assert(is_first_failure(replies@, gk));
                    assert(failure_result(op@, recs, replies@, gk, e));
                    assert(!accepted_upto(replies@, replies@.len() as int));
                }
                return Err(e);
            },
            ChunkReply::TransportFailed { detail } => {
                let e = AirtableError::Http(detail.clone());
                proof {
                    assert(is_first_failure(replies@, k as int));
                    assert(failure_result(op@, recs, replies@, k as int, e));
                    assert(!accepted_upto(replies@, replies@.len() as int));
                }
                return Err(e);
            },
        }
    }
    proof {
        // all chunks accepted: the cursor has reached the end of the input
        assert(chunk_start(n_chunks as int) >= n) by {
            assert(chunk_count(n) * (CHUNK_SIZE as int) >= n) by (nonlinear_arith)
                requires
                    chunk_count(n) == (n + CHUNK_SIZE - 1) / (CHUNK_SIZE as int),
                    CHUNK_SIZE == 10,
                    n >= 0,
            ;
        }
    }
    Ok(w.into_processed())
}

/// Bulk create: one insert request per chunk of at most `CHUNK_SIZE`
/// records, in order, stopping at the first chunk the service does not
/// accept. Records sent for creation carry no id yet.
pub fn create_records(records: Vec<Record>, replies: &Vec<ChunkReply>) -> (r: Result<
    Vec<Record>,
    AirtableError,
>)
    requires
        forall|i: int| 0 <= i < records@.len() ==> (#[trigger] records@[i].id) is None,
        replies@.len() == chunk_count(records@.len() as int),
        echo_lens_match(records@.len() as int, replies@),
    ensures
        write_result("Create records"@, records@, replies@, r),
{
    run_chunks("Create records", records, replies)
}

/// Bulk update: one merge-by-id request per chunk of at most
/// `CHUNK_SIZE` records, in order, stopping at the first chunk the
/// service does not accept. Records sent for update carry their id.
pub fn update_records(records: Vec<Record>, replies: &Vec<ChunkReply>) -> (r: Result<
    Vec<Record>,
    AirtableError,
>)
    requires
        forall|i: int| 0 <= i < records@.len() ==> (#[trigger] records@[i].id) is Some,
        replies@.len() == chunk_count(records@.len() as int),
        echo_lens_match(records@.len() as int, replies@),
    ensures
        write_result("Update records"@, records@, replies@, r),
{
    run_chunks("Update records", records, replies)
}

/// An empty write issues no request and returns the empty sequence: a
/// list of no records has no chunks, so the only reply sequence a bulk
/// write accepts is the empty one, and the result it owes is `Ok` of no
/// records.
pub proof fn lemma_empty_write(
    op: Seq<char>,
    records: Seq<Record>,
    replies: Seq<ChunkReply>,
    r: Result<Vec<Record>, AirtableError>,
)
    requires
        records.len() == 0,
        replies.len() == chunk_count(records.len() as int),
        write_result(op, records, replies, r),
    ensures
        replies.len() == 0,
        r matches Ok(v) && v@ == Seq::<Record>::empty(),
{
    assert(chunk_count(0) == 0);
    assert(accepted_upto(replies, 0));
}

/// One request per chunk: a bulk write of `n` records takes exactly
/// `ceil(n / CHUNK_SIZE)` requests, the length a bulk write demands of
/// its reply sequence.
pub proof fn lemma_request_count(n: int)
    requires
        0 <= n,
    ensures
        n == 0 ==> chunk_count(n) == 0,
        chunk_count(n) * (CHUNK_SIZE as int) >= n,
        n > 0 ==> (chunk_count(n) - 1) * (CHUNK_SIZE as int) < n,
        n > 0 ==> chunk_count(n) == ((n - 1) / (CHUNK_SIZE as int)) + 1,
{
}

/// The echoes of `k` accepted chunks cover exactly the first
/// `min(k * CHUNK_SIZE, n)` input records: one echoed record per record
/// sent.
pub proof fn lemma_echoed_len(n: int, replies: Seq<ChunkReply>, k: int)
    requires
        0 <= n,
        replies.len() == chunk_count(n),
        echo_lens_match(n, replies),
        0 <= k <= replies.len(),
        accepted_upto(replies, k),
    ensures
        echoed_concat(replies, k).len() == vstd::math::min(chunk_start(k), n),
    decreases k,
{
    if k > 0 {
        lemma_echoed_len(n, replies, k - 1);
        assert(chunk_start(k - 1) < n) by {
            assert((k - 1) * (CHUNK_SIZE as int) <= (chunk_count(n) - 1) * (CHUNK_SIZE as int))
                by (nonlinear_arith)
                requires
                    k - 1 <= chunk_count(n) - 1,
                    CHUNK_SIZE == 10,
            ;
        }
    }
}

/// Exactly-once accounting at a failure: when chunk `k` is the first
/// the service does not accept, the echoed prefix and the untouched
/// suffix together account for every input record, and the input is
/// split exactly at the failed chunk's first record; no record stands in
/// both lists and none is dropped.
pub proof fn lemma_partial_accounting(
    op: Seq<char>,
    records: Seq<Record>,
    replies: Seq<ChunkReply>,
    k: int,
    e: AirtableError,
)
    requires
        replies.len() == chunk_count(records.len() as int),
        echo_lens_match(records.len() as int, replies),
        is_first_failure(replies, k),
        replies[k] is Rejected || replies[k] is Malformed,
        failure_result(op, records, replies, k, e),
    ensures
        e matches AirtableError::PartialSuccessError { processed_count, processed, remaining, .. }
            && processed@.len() == chunk_start(k) && processed@.len() + remaining@.len()
            == records.len() && processed_count == processed@.len() && remaining@
            == records.subrange(chunk_start(k), records.len() as int),
{
    let n = records.len() as int;
    lemma_echoed_len(n, replies, k);
    assert(chunk_start(k) < n) by {
        assert(k * (CHUNK_SIZE as int) <= (chunk_count(n) - 1) * (CHUNK_SIZE as int))
            by (nonlinear_arith)
            requires
                k <= chunk_count(n) - 1,
                CHUNK_SIZE == 10,
        ;
    }
}

/// Chunk-boundary idempotence: when chunk `k` fails, `remaining` begins
/// exactly at chunk `k`'s first record; no record of a failed chunk is
/// counted as processed.
pub proof fn lemma_resume_point(
    op: Seq<char>,
    records: Seq<Record>,
    replies: Seq<ChunkReply>,
    k: int,
    e: AirtableError,
)
    requires
        replies.len() == chunk_count(records.len() as int),
        echo_lens_match(records.len() as int, replies),
        is_first_failure(replies, k),
        replies[k] is Rejected || replies[k] is Malformed,
        failure_result(op, records, replies, k, e),
    ensures
        e matches AirtableError::PartialSuccessError { remaining, .. } && remaining@.len() > 0
            && remaining@[0] == records[chunk_start(k)],
{
    lemma_partial_accounting(op, records, replies, k, e);
}

} // verus!
