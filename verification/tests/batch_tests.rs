use airtable_client::error::AirtableError;
use airtable_client::records::Record;
use airtable_client::write::BatchWriter;
use airtable_client::write::ChunkReply;
use airtable_client::write::create_records;
use airtable_client::write::update_records;

fn rec(id: Option<&str>) -> Record {
    Record {
        id: id.map(|s| s.to_string()),
        fields: serde_json::Value::Null,
        created_time: None,
    }
}

fn fresh(n: usize) -> Vec<Record> {
    let mut v = Vec::new();
    for _ in 0..n {
        v.push(rec(None));
    }
    v
}

fn echoed(lo: usize, hi: usize) -> Vec<Record> {
    let mut v = Vec::new();
    for i in lo..hi {
        v.push(rec(Some(&format!("rec{}", i))));
    }
    v
}

#[test]
fn empty_write_issues_no_request() {
    let replies: Vec<ChunkReply> = Vec::new();
    let r = create_records(Vec::new(), &replies).unwrap();
    assert_eq!(r.len(), 0);
}

#[test]
fn twenty_five_records_three_chunks_all_succeed() {
    let records = fresh(25);
    let replies = vec![
        ChunkReply::Accepted { records: echoed(0, 10) },
        ChunkReply::Accepted { records: echoed(10, 20) },
        ChunkReply::Accepted { records: echoed(20, 25) },
    ];
    let r = create_records(records, &replies).unwrap();
    assert_eq!(r.len(), 25);
    for i in 0..25 {
        assert_eq!(r[i].id, Some(format!("rec{}", i)));
    }
}

#[test]
fn fifteen_records_second_chunk_rejected() {
    let records = fresh(15);
    let replies = vec![
        ChunkReply::Accepted { records: echoed(0, 10) },
        ChunkReply::Rejected { status: 422, body: "oops".to_string() },
    ];
    let e = create_records(records, &replies).unwrap_err();
    match e {
        AirtableError::PartialSuccessError { processed_count, processed, remaining, message } => {
            assert_eq!(processed_count, 10);
            assert_eq!(processed.len(), 10);
            assert_eq!(remaining.len(), 5);
            for i in 0..10 {
                assert_eq!(processed[i].id, Some(format!("rec{}", i)));
            }
            for r in &remaining {
                assert_eq!(r.id, None);
            }
            assert_eq!(message, "Create records failed (422): oops");
        },
        _ => panic!("expected a partial batch failure"),
    }
}

#[test]
fn first_chunk_rejected_keeps_every_record_remaining() {
    let records = fresh(4);
    let body = "{\"error\":{\"type\":\"INVALID_REQUEST\",\"message\":\"Bad field\"}}".to_string();
    let replies = vec![ChunkReply::Rejected { status: 422, body }];
    let e = create_records(records, &replies).unwrap_err();
    match e {
        AirtableError::PartialSuccessError { processed_count, processed, remaining, message } => {
            assert_eq!(processed_count, 0);
            assert_eq!(processed.len(), 0);
            assert_eq!(remaining.len(), 4);
            assert_eq!(message, "Create records failed (422): INVALID_REQUEST - Bad field");
        },
        _ => panic!("expected a partial batch failure"),
    }
}

#[test]
fn malformed_chunk_reply_reports_partial_failure() {
    let records = fresh(12);
    let replies = vec![
        ChunkReply::Accepted { records: echoed(0, 10) },
        ChunkReply::Malformed { detail: "missing records member".to_string() },
    ];
    let e = create_records(records, &replies).unwrap_err();
    match e {
        AirtableError::PartialSuccessError { processed_count, remaining, message, .. } => {
            assert_eq!(processed_count, 10);
            assert_eq!(remaining.len(), 2);
            assert_eq!(message, "missing records member");
        },
        _ => panic!("expected a partial batch failure"),
    }
}

#[test]
fn transport_failure_surfaces_directly() {
    let records = fresh(3);
    let replies = vec![ChunkReply::TransportFailed { detail: "connection refused".to_string() }];
    let e = create_records(records, &replies).unwrap_err();
    match e {
        AirtableError::Http(m) => assert_eq!(m, "connection refused"),
        _ => panic!("expected a transport error"),
    }
}

#[test]
fn update_records_echoes_in_chunk_order() {
    let mut records = Vec::new();
    for i in 0..11 {
        records.push(rec(Some(&format!("old{}", i))));
    }
    let replies = vec![
        ChunkReply::Accepted { records: echoed(0, 10) },
        ChunkReply::Accepted { records: echoed(10, 11) },
    ];
    let r = update_records(records, &replies).unwrap();
    assert_eq!(r.len(), 11);
    assert_eq!(r[10].id, Some("rec10".to_string()));
}

#[test]
fn update_records_rejected_message_is_classified() {
    let records = vec![rec(Some("recA")), rec(Some("recB"))];
    let replies = vec![ChunkReply::Rejected { status: 403, body: "forbidden".to_string() }];
    let e = update_records(records, &replies).unwrap_err();
    match e {
        AirtableError::PartialSuccessError { message, remaining, .. } => {
            assert_eq!(message, "Update records failed (403): forbidden");
            assert_eq!(remaining.len(), 2);
            assert_eq!(remaining[0].id, Some("recA".to_string()));
        },
        _ => panic!("expected a partial batch failure"),
    }
}

#[test]
fn batch_writer_chunks_and_accounts() {
    let mut input = Vec::new();
    for i in 0..13 {
        input.push(rec(Some(&format!("in{}", i))));
    }
    let mut w = BatchWriter::new(input);
    assert!(w.has_pending());
    let chunk = w.current_chunk();
    assert_eq!(chunk.len(), 10);
    assert_eq!(chunk[0].id, Some("in0".to_string()));
    assert_eq!(chunk[9].id, Some("in9".to_string()));
    w.record_success(echoed(0, 10));
    assert!(w.has_pending());
    let chunk = w.current_chunk();
    assert_eq!(chunk.len(), 3);
    assert_eq!(chunk[0].id, Some("in10".to_string()));
    w.record_success(echoed(10, 13));
    assert!(!w.has_pending());
    let done = w.into_processed();
    assert_eq!(done.len(), 13);
    assert_eq!(done[12].id, Some("rec12".to_string()));
}

#[test]
fn batch_writer_abort_splits_at_cursor() {
    let mut input = Vec::new();
    for i in 0..12 {
        input.push(rec(Some(&format!("in{}", i))));
    }
    let mut w = BatchWriter::new(input);
    w.record_success(echoed(0, 10));
    let e = w.abort("stopped".to_string());
    match e {
        AirtableError::PartialSuccessError { processed_count, processed, remaining, message } => {
            assert_eq!(processed_count, 10);
            assert_eq!(processed.len(), 10);
            assert_eq!(remaining.len(), 2);
            assert_eq!(remaining[0].id, Some("in10".to_string()));
            assert_eq!(message, "stopped");
        },
        _ => panic!("expected a partial batch failure"),
    }
}
