use truenas_acme_auth::envelope::{parse_envelope, parse_record};
use truenas_acme_auth::client::find_txt_record;
use truenas_acme_auth::request::record_json;
use truenas_acme_auth::text::relative_host;
use truenas_acme_auth::{ApiError, DNSRecord, Json, NetcupAPIClient, ResponsePayload, ResponseStatus};

fn s(v: &str) -> Json {
    Json::Str(v.to_string())
}

fn obj(members: Vec<(&str, Json)>) -> Json {
    Json::Object(members.into_iter().map(|(k, v)| (k.to_string(), v)).collect())
}

fn record(id: Option<&str>, hostname: &str, record_type: &str, destination: &str) -> Json {
    obj(vec![
        ("id", id.map(s).unwrap_or(Json::Null)),
        ("hostname", s(hostname)),
        ("type", s(record_type)),
        ("priority", s("0")),
        ("destination", s(destination)),
        ("deleterecord", Json::Bool(false)),
        ("state", s("yes")),
    ])
}

fn envelope(status: &str, data: Json) -> Json {
    obj(vec![
        ("serverrequestid", s("srv-1")),
        ("clientrequestid", Json::Null),
        ("action", s("someAction")),
        ("status", s(status)),
        ("statuscode", Json::Int(2000)),
        ("shortmessage", s("done")),
        ("longmessage", Json::Null),
        ("responsedata", data),
    ])
}

fn session_payload(id: &str) -> Json {
    obj(vec![("apisessionid", s(id))])
}

fn records_payload(records: Vec<Json>) -> Json {
    obj(vec![("dnsrecords", Json::Array(records))])
}

fn logged_in() -> NetcupAPIClient {
    let mut c = NetcupAPIClient::new();
    let resp = envelope("success", session_payload("tok-123"));
    assert_eq!(c.login("12345".to_string(), "key".to_string(), &resp), Ok(()));
    c
}

fn member<'a>(j: &'a Json, key: &str) -> &'a Json {
    match j {
        Json::Object(f) => &f.iter().find(|(k, _)| k == key).expect("member").1,
        _ => panic!("not an object"),
    }
}

fn text(j: &Json) -> &str {
    match j {
        Json::Str(t) => t.as_str(),
        _ => panic!("not a string"),
    }
}

#[test]
fn login_takes_session_id() {
    let c = logged_in();
    assert!(c.is_authenticated());
    assert_eq!(c.session_token(), Some("tok-123".to_string()));
}

#[test]
fn login_with_error_status_and_session_id_still_logs_in() {
    let mut c = NetcupAPIClient::new();
    let resp = envelope("error", session_payload("tok-9"));
    assert_eq!(c.login("1".to_string(), "k".to_string(), &resp), Ok(()));
    assert_eq!(c.session_token(), Some("tok-9".to_string()));
}

#[test]
fn login_with_records_payload_is_auth_error() {
    let mut c = NetcupAPIClient::new();
    let resp = envelope("success", records_payload(vec![]));
    assert_eq!(c.login("1".to_string(), "k".to_string(), &resp), Err(ApiError::Auth));
    assert!(!c.is_authenticated());
}

#[test]
fn login_with_unknown_payload_is_auth_error() {
    let mut c = NetcupAPIClient::new();
    let resp = envelope("success", s(""));
    assert_eq!(c.login("1".to_string(), "k".to_string(), &resp), Err(ApiError::Auth));
    let resp = envelope("success", Json::Null);
    assert_eq!(c.login("1".to_string(), "k".to_string(), &resp), Err(ApiError::Auth));
}

#[test]
fn login_with_malformed_envelope_is_protocol_error() {
    let mut c = NetcupAPIClient::new();
    let resp = obj(vec![("status", s("success")), ("responsedata", session_payload("t"))]);
    assert_eq!(c.login("1".to_string(), "k".to_string(), &resp), Err(ApiError::Protocol));
}

#[test]
fn second_login_is_refused() {
    let mut c = logged_in();
    let resp = envelope("success", session_payload("other"));
    assert!(c.login_request("1", "pw", "k").is_err());
    assert_eq!(c.login("1".to_string(), "k".to_string(), &resp), Err(ApiError::Auth));
    assert_eq!(c.session_token(), Some("tok-123".to_string()));
}

#[test]
fn login_request_carries_credentials() {
    let c = NetcupAPIClient::new();
    let j = c.login_request("12345", "secret", "key").unwrap();
    assert_eq!(text(member(&j, "action")), "login");
    let p = member(&j, "param");
    assert_eq!(text(member(p, "apikey")), "key");
    assert_eq!(text(member(p, "apipassword")), "secret");
    assert_eq!(text(member(p, "customernumber")), "12345");
}

#[test]
fn operations_before_login_fail_with_auth() {
    let c = NetcupAPIClient::new();
    let resp = envelope("success", records_payload(vec![]));
    assert!(matches!(c.list_records_request("example.com"), Err(ApiError::Auth)));
    assert!(matches!(c.list_records(&resp), Err(ApiError::Auth)));
    assert_eq!(c.add_txt_record(&resp, "sub", "x"), Err(ApiError::Auth));
    assert_eq!(c.delete_record(&resp), Err(ApiError::Auth));
}

#[test]
fn logout_ends_session() {
    let mut c = logged_in();
    let j = c.logout().unwrap();
    assert_eq!(text(member(&j, "action")), "logout");
    let p = member(&j, "param");
    assert_eq!(text(member(p, "apisessionid")), "tok-123");
    assert_eq!(text(member(p, "apikey")), "key");
    assert_eq!(text(member(p, "customernumber")), "12345");
    assert!(!c.is_authenticated());
    assert!(matches!(c.logout(), Err(ApiError::Auth)));
    let resp = envelope("success", records_payload(vec![]));
    assert!(matches!(c.list_records(&resp), Err(ApiError::Auth)));
    assert!(c.login_request("1", "pw", "k").is_err());
    let relogin = envelope("success", session_payload("again"));
    assert_eq!(c.login("1".to_string(), "k".to_string(), &relogin), Err(ApiError::Auth));
}

#[test]
fn list_records_keeps_server_order() {
    let c = logged_in();
    let resp = envelope("success", records_payload(vec![
        record(Some("1"), "b", "A", "1.2.3.4"),
        record(Some("2"), "a", "TXT", "tok"),
    ]));
    let rs = c.list_records(&resp).unwrap();
    assert_eq!(rs.len(), 2);
    assert_eq!(rs[0].hostname, "b");
    assert_eq!(rs[1].hostname, "a");
    assert_eq!(rs[1].id, Some("2".to_string()));
    assert_eq!(rs[0].priority, Some("0".to_string()));
}

#[test]
fn list_records_twice_gives_same_records() {
    let c = logged_in();
    let resp = envelope("success", records_payload(vec![
        record(Some("1"), "b", "A", "1.2.3.4"),
        record(Some("2"), "a", "TXT", "tok"),
    ]));
    let first = c.list_records(&resp).unwrap();
    let second = c.list_records(&resp).unwrap();
    assert_eq!(format!("{:?}", first), format!("{:?}", second));
}

#[test]
fn list_records_without_records_is_protocol_error() {
    let c = logged_in();
    let resp = envelope("success", session_payload("x"));
    assert!(matches!(c.list_records(&resp), Err(ApiError::Protocol)));
    let resp = envelope("success", Json::Null);
    assert!(matches!(c.list_records(&resp), Err(ApiError::Protocol)));
}

#[test]
fn list_records_request_names_domain() {
    let c = logged_in();
    let j = c.list_records_request("example.com").unwrap();
    assert_eq!(text(member(&j, "action")), "infoDnsRecords");
    let p = member(&j, "param");
    assert_eq!(text(member(p, "domainname")), "example.com");
    assert_eq!(text(member(p, "apisessionid")), "tok-123");
}

#[test]
fn find_returns_first_match() {
    let c = logged_in();
    let resp = envelope("success", records_payload(vec![
        record(Some("1"), "sub", "A", "tok"),
        record(Some("2"), "sub", "TXT", "other"),
        record(Some("3"), "sub", "TXT", "tok"),
        record(Some("4"), "sub", "TXT", "tok"),
    ]));
    assert_eq!(c.find_txt_record_id(&resp, "sub", "tok"), Ok("3".to_string()));
}

#[test]
fn find_without_match_is_not_found() {
    let c = logged_in();
    let resp = envelope("success", records_payload(vec![record(Some("1"), "sub", "A", "tok")]));
    assert_eq!(c.find_txt_record_id(&resp, "sub", "tok"), Err(ApiError::NotFound));
    let empty: Vec<DNSRecord> = vec![];
    assert_eq!(find_txt_record(&empty, "sub", "tok"), Err(ApiError::NotFound));
}

#[test]
fn find_match_without_id_is_missing_id() {
    let c = logged_in();
    let resp = envelope("success", records_payload(vec![
        record(None, "sub", "TXT", "tok"),
        record(Some("2"), "sub", "TXT", "tok"),
    ]));
    assert_eq!(c.find_txt_record_id(&resp, "sub", "tok"), Err(ApiError::MissingId));
}

#[test]
fn add_succeeds_when_echoed() {
    let c = logged_in();
    let resp = envelope("success", records_payload(vec![
        record(Some("7"), "other", "TXT", "tok"),
        record(Some("8"), "_acme-challenge", "TXT", "tok"),
    ]));
    assert_eq!(c.add_txt_record(&resp, "_acme-challenge", "tok"), Ok(()));
}

#[test]
fn add_with_success_status_but_missing_record_is_verification_error() {
    let c = logged_in();
    let resp = envelope("success", records_payload(vec![record(Some("7"), "_acme-challenge", "TXT", "old")]));
    assert_eq!(c.add_txt_record(&resp, "_acme-challenge", "tok"), Err(ApiError::Verification));
}

#[test]
fn add_with_echo_succeeds_whatever_status() {
    let c = logged_in();
    let resp = envelope("warning", records_payload(vec![record(Some("7"), "h", "TXT", "tok")]));
    assert_eq!(c.add_txt_record(&resp, "h", "tok"), Ok(()));
}

#[test]
fn add_without_records_is_protocol_error() {
    let c = logged_in();
    let resp = envelope("success", s(""));
    assert_eq!(c.add_txt_record(&resp, "h", "tok"), Err(ApiError::Protocol));
}

#[test]
fn add_request_proposes_txt_record() {
    let c = logged_in();
    let j = c.add_txt_record_request("example.com", "sub", "tok").unwrap();
    assert_eq!(text(member(&j, "action")), "updateDnsRecords");
    let p = member(&j, "param");
    assert_eq!(text(member(p, "domainname")), "example.com");
    let items = match member(member(p, "dnsrecordset"), "dnsrecords") {
        Json::Array(items) => items,
        _ => panic!("not an array"),
    };
    assert_eq!(items.len(), 1);
    let r = parse_record(&items[0]).unwrap();
    assert_eq!(r.id, None);
    assert_eq!(r.hostname, "sub");
    assert_eq!(r.record_type, "TXT");
    assert_eq!(r.destination, "tok");
    assert_eq!(r.deleterecord, None);
    assert_eq!(r.state, None);
}

#[test]
fn delete_request_marks_record() {
    let c = logged_in();
    let j = c.delete_record_request("42", "example.com", "sub", "tok").unwrap();
    let p = member(&j, "param");
    let items = match member(member(p, "dnsrecordset"), "dnsrecords") {
        Json::Array(items) => items,
        _ => panic!("not an array"),
    };
    let r = parse_record(&items[0]).unwrap();
    assert_eq!(r.id, Some("42".to_string()));
    assert_eq!(r.deleterecord, Some(true));
    assert_eq!(r.record_type, "TXT");
}

#[test]
fn delete_with_success_status_succeeds() {
    let c = logged_in();
    let resp = envelope("success", Json::Null);
    assert_eq!(c.delete_record(&resp), Ok(()));
}

#[test]
fn delete_with_other_status_is_status_error_despite_payload() {
    let c = logged_in();
    let resp = envelope("error", records_payload(vec![]));
    assert_eq!(c.delete_record(&resp), Err(ApiError::Status));
    let resp = envelope("pending", records_payload(vec![record(Some("1"), "x", "A", "y")]));
    assert_eq!(c.delete_record(&resp), Err(ApiError::Status));
}

#[test]
fn envelope_decodes_fields() {
    let e = parse_envelope(&envelope("warning", s(""))).unwrap();
    assert_eq!(e.status, ResponseStatus::Warning);
    assert_eq!(e.status_code, 2000);
    assert_eq!(e.server_request_id, "srv-1");
    assert_eq!(e.client_request_id, None);
    assert!(matches!(e.response_data, Some(ResponsePayload::Unknown)));
    let e = parse_envelope(&envelope("started", Json::Null)).unwrap();
    assert!(e.response_data.is_none());
}

#[test]
fn envelope_with_bad_status_is_protocol_error() {
    assert!(matches!(parse_envelope(&envelope("done", Json::Null)), Err(ApiError::Protocol)));
    assert!(matches!(parse_envelope(&s("x")), Err(ApiError::Protocol)));
}

#[test]
fn envelope_with_large_status_code_is_protocol_error() {
    let mut j = envelope("success", Json::Null);
    if let Json::Object(f) = &mut j {
        f[4].1 = Json::Int(4_294_967_296);
    }
    assert!(matches!(parse_envelope(&j), Err(ApiError::Protocol)));
}

#[test]
fn malformed_record_list_is_unknown_payload() {
    let bad = obj(vec![("hostname", Json::Int(3))]);
    let e = parse_envelope(&envelope("success", records_payload(vec![bad]))).unwrap();
    assert!(matches!(e.response_data, Some(ResponsePayload::Unknown)));
}

#[test]
fn record_encoding_decodes_back() {
    let rec = DNSRecord {
        id: Some("5".to_string()),
        hostname: "h".to_string(),
        record_type: "TXT".to_string(),
        priority: None,
        destination: "d".to_string(),
        deleterecord: Some(true),
        state: Some("yes".to_string()),
    };
    let back = parse_record(&record_json(&rec)).unwrap();
    assert_eq!(format!("{:?}", back), format!("{:?}", rec));
}

#[test]
fn relative_host_strips_domain() {
    assert_eq!(relative_host("sub.example.com", "example.com"), Some("sub".to_string()));
    assert_eq!(relative_host("a.b.example.com", "example.com"), Some("a.b".to_string()));
}

#[test]
fn relative_host_rejects_bare_domain() {
    assert_eq!(relative_host("example.com", "example.com"), None);
}

#[test]
fn relative_host_rejects_foreign_hostname() {
    assert_eq!(relative_host("subexample.com", "example.com"), None);
    assert_eq!(relative_host("sub.example.org", "example.com"), None);
}
