use airtable_client::client::AirtableClient;
use airtable_client::digits::u32_decimal;
use airtable_client::error::AirtableError;
use airtable_client::error::classify_response;
use airtable_client::error::handle_airtable_error;
use airtable_client::error::unreadable_body_error;
use airtable_client::params::ListRecordsParams;
use airtable_client::records::Record;
use airtable_client::request::base_url;
use airtable_client::request::offset_pair;
use airtable_client::request::query_pairs;
use airtable_client::request::record_url;

#[test]
fn decimal_renders_exact_digits() {
    assert_eq!(u32_decimal(0), "0");
    assert_eq!(u32_decimal(7), "7");
    assert_eq!(u32_decimal(10), "10");
    assert_eq!(u32_decimal(422), "422");
    assert_eq!(u32_decimal(4294967295), "4294967295");
}

#[test]
fn client_holds_credentials() {
    let c = AirtableClient::new("keyTestToken", "appBase123");
    assert_eq!(c.api_key, "keyTestToken");
    assert_eq!(c.base_id, "appBase123");
    assert_eq!(c.typecast, Some(true));
    assert_eq!(c.auth_header_value(), "Bearer keyTestToken");
}

#[test]
fn params_start_with_every_option_absent() {
    let p = ListRecordsParams::new();
    assert!(p.view.is_none());
    assert!(p.max_records.is_none());
    assert!(p.fields.is_none());
    assert!(p.sort.is_none());
    let d = ListRecordsParams::default();
    assert!(d.view.is_none());
    assert!(d.max_records.is_none());
}

#[test]
fn urls_are_joined_exactly() {
    assert_eq!(
        base_url("appB", "Tasks"),
        "https://api.airtable.com/v0/appB/Tasks"
    );
    assert_eq!(
        record_url("appB", "Tasks", "rec1"),
        "https://api.airtable.com/v0/appB/Tasks/rec1"
    );
}

#[test]
fn query_pairs_cover_every_option_in_order() {
    let p = ListRecordsParams {
        view: Some("Grid view".to_string()),
        max_records: Some(250),
        fields: Some(vec!["Name".to_string(), "Due".to_string()]),
        sort: Some(("Due".to_string(), "desc".to_string())),
    };
    let pairs = query_pairs(&p);
    let got: Vec<(String, String)> = pairs;
    assert_eq!(got.len(), 6);
    assert_eq!(got[0], ("maxRecords".to_string(), "250".to_string()));
    assert_eq!(got[1], ("view".to_string(), "Grid view".to_string()));
    assert_eq!(got[2], ("fields[]".to_string(), "Name".to_string()));
    assert_eq!(got[3], ("fields[]".to_string(), "Due".to_string()));
    assert_eq!(got[4], ("sort[0][field]".to_string(), "Due".to_string()));
    assert_eq!(got[5], ("sort[0][direction]".to_string(), "desc".to_string()));
}

#[test]
fn absent_options_contribute_no_pair() {
    let p = ListRecordsParams::new();
    assert_eq!(query_pairs(&p).len(), 0);
    let only_view = ListRecordsParams {
        view: Some("V".to_string()),
        max_records: None,
        fields: None,
        sort: None,
    };
    let pairs = query_pairs(&only_view);
    assert_eq!(pairs.len(), 1);
    assert_eq!(pairs[0], ("view".to_string(), "V".to_string()));
}

#[test]
fn offset_pair_carries_cursor() {
    let (k, v) = offset_pair("itrAbc");
    assert_eq!(k, "offset");
    assert_eq!(v, "itrAbc");
}

#[test]
fn classifier_uses_envelope_when_present() {
    let body = "{\"error\":{\"type\":\"RATE_LIMITED\",\"message\":\"Slow down\"}}";
    let m = classify_response("List records", 429, body);
    assert_eq!(m, "List records failed (429): RATE_LIMITED - Slow down");
}

#[test]
fn classifier_defaults_missing_envelope_members() {
    let body = "{\"error\":{}}";
    let m = classify_response("List records", 500, body);
    assert_eq!(
        m,
        "List records failed (500): Unknown error type - No error message provided"
    );
    let body = "{\"error\":{\"type\":5}}";
    let m = classify_response("List records", 500, body);
    assert_eq!(
        m,
        "List records failed (500): Unknown error type - No error message provided"
    );
}

#[test]
fn classifier_falls_back_to_raw_body() {
    let m = classify_response("Get single record", 502, "bad gateway");
    assert_eq!(m, "Get single record failed (502): bad gateway");
    let m = classify_response("Get single record", 502, "[1,2,3]");
    assert_eq!(m, "Get single record failed (502): [1,2,3]");
}

#[test]
fn handle_error_wraps_classified_message() {
    let e = handle_airtable_error("Create records", 422, "nope");
    match e {
        AirtableError::Other(m) => assert_eq!(m, "Create records failed (422): nope"),
        _ => panic!("expected the classified variant"),
    }
}

#[test]
fn unreadable_body_is_reported_with_status() {
    let e = unreadable_body_error("List records", 503, "stream cut");
    match e {
        AirtableError::Other(m) => {
            assert_eq!(m, "List records failed (503), also could not read body: stream cut");
        },
        _ => panic!("expected the classified variant"),
    }
}

#[test]
fn error_messages_carry_variant_headlines() {
    assert_eq!(
        AirtableError::Http("down".to_string()).message(),
        "HTTP request failed: down"
    );
    assert_eq!(
        AirtableError::Json("bad token".to_string()).message(),
        "JSON parsing error: bad token"
    );
    assert_eq!(
        AirtableError::Other("misc".to_string()).message(),
        "Other error occurred: misc"
    );
    let e = AirtableError::PartialSuccessError {
        processed_count: 0,
        processed: Vec::new(),
        remaining: Vec::new(),
        message: "chunk failed".to_string(),
    };
    assert_eq!(e.message(), "Partial batch failure: chunk failed");
}

#[test]
fn record_clone_preserves_every_field() {
    let mut map = serde_json::Map::new();
    map.insert("Name".to_string(), serde_json::Value::String("Task".to_string()));
    let r = Record {
        id: Some("rec9".to_string()),
        fields: serde_json::Value::Object(map),
        created_time: None,
    };
    let c = r.clone();
    assert_eq!(c.id, r.id);
    assert_eq!(c.fields, r.fields);
    assert_eq!(c.created_time, r.created_time);
}
