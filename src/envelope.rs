use vstd::prelude::*;

use crate::error::ApiError;
use crate::json::{find_member, lookup, str_eq, Json};

verus! {

/// The status that a response envelope reports.
#[derive(Clone, Copy, Debug, PartialEq, Eq, Structural)]
pub enum ResponseStatus {
    Error,
    Started,
    Pending,
    Warning,
    Success,
}

/// One DNS record as the API exchanges it.
#[derive(Debug, Clone)]
pub struct DNSRecord {
    pub id: Option<String>,
    pub hostname: String,
    pub record_type: String,
    pub priority: Option<String>,
    pub destination: String,
    pub deleterecord: Option<bool>,
    pub state: Option<String>,
}

/// The contents of a [`DNSRecord`].
pub struct RecordView {
    pub id: Option<Seq<char>>,
    pub hostname: Seq<char>,
    pub record_type: Seq<char>,
    pub priority: Option<Seq<char>>,
    pub destination: Seq<char>,
    pub deleterecord: Option<bool>,
    pub state: Option<Seq<char>>,
}

pub open spec fn opt_view(o: Option<String>) -> Option<Seq<char>> {
    match o {
        Some(s) => Some(s@),
        None => None,
    }
}

impl View for DNSRecord {
    type V = RecordView;

    open spec fn view(&self) -> RecordView {
        RecordView {
            id: opt_view(self.id),
            hostname: self.hostname@,
            record_type: self.record_type@,
            priority: opt_view(self.priority),
            destination: self.destination@,
            deleterecord: self.deleterecord,
            state: opt_view(self.state),
        }
    }
}

pub open spec fn records_view(rs: Seq<DNSRecord>) -> Seq<RecordView> {
    rs.map_values(|r: DNSRecord| r@)
}

/// The payload of a response, told apart by its shape.
#[derive(Debug)]
pub enum ResponsePayload {
    Records(Vec<DNSRecord>),
    SessionId(String),
    Unknown,
}

pub enum PayloadView {
    Records(Seq<RecordView>),
    SessionId(Seq<char>),
    Unknown,
}

impl View for ResponsePayload {
    type V = PayloadView;

    open spec fn view(&self) -> PayloadView {
        match self {
            ResponsePayload::Records(rs) => PayloadView::Records(records_view(rs@)),
            ResponsePayload::SessionId(s) => PayloadView::SessionId(s@),
            ResponsePayload::Unknown => PayloadView::Unknown,
        }
    }
}

/// A decoded response envelope.
#[derive(Debug)]
pub struct ResponseEnvelope {
    pub server_request_id: String,
    pub client_request_id: Option<String>,
    pub action: String,
    pub status: ResponseStatus,
    pub status_code: u32,
    pub short_message: String,
    pub long_message: Option<String>,
    pub response_data: Option<ResponsePayload>,
}

pub struct EnvelopeView {
    pub server_request_id: Seq<char>,
    pub client_request_id: Option<Seq<char>>,
    pub action: Seq<char>,
    pub status: ResponseStatus,
    pub status_code: u32,
    pub short_message: Seq<char>,
    pub long_message: Option<Seq<char>>,
    pub response_data: Option<PayloadView>,
}

impl View for ResponseEnvelope {
    type V = EnvelopeView;

    open spec fn view(&self) -> EnvelopeView {
        EnvelopeView {
            server_request_id: self.server_request_id@,
            client_request_id: opt_view(self.client_request_id),
            action: self.action@,
            status: self.status,
            status_code: self.status_code,
            short_message: self.short_message@,
            long_message: opt_view(self.long_message),
            response_data: match self.response_data {
                Some(p) => Some(p@),
                None => None,
            },
        }
    }
}

/// A member that must be a string.
pub open spec fn required_str_of(v: Option<Json>) -> Option<Seq<char>> {
    match v {
        Some(Json::Str(s)) => Some(s@),
        _ => None,
    }
}

/// A member that may be missing or null (`Some(None)`), or hold a string;
/// `None` when it holds anything else.
pub open spec fn nullable_str_of(v: Option<Json>) -> Option<Option<Seq<char>>> {
    match v {
        None => Some(None),
        Some(Json::Null) => Some(None),
        Some(Json::Str(s)) => Some(Some(s@)),
        _ => None,
    }
}

/// A member that may be missing or null, or hold a boolean.
pub open spec fn nullable_bool_of(v: Option<Json>) -> Option<Option<bool>> {
    match v {
        None => Some(None),
        Some(Json::Null) => Some(None),
        Some(Json::Bool(b)) => Some(Some(b)),
        _ => None,
    }
}

/// The record that a JSON value describes, if it has a record's shape.
pub open spec fn record_of(v: Json) -> Option<RecordView> {
    match v {
        Json::Object(fields) => {
            let f = fields@;
            let id = nullable_str_of(lookup(f, "id"@));
            let hostname = required_str_of(lookup(f, "hostname"@));
            let record_type = required_str_of(lookup(f, "type"@));
            let priority = nullable_str_of(lookup(f, "priority"@));
            let destination = required_str_of(lookup(f, "destination"@));
            let deleterecord = nullable_bool_of(lookup(f, "deleterecord"@));
            let state = nullable_str_of(lookup(f, "state"@));
            if id is Some && hostname is Some && record_type is Some && priority is Some
                && destination is Some && deleterecord is Some && state is Some {
                Some(
                    RecordView {
                        id: id->0,
                        hostname: hostname->0,
                        record_type: record_type->0,
                        priority: priority->0,
                        destination: destination->0,
                        deleterecord: deleterecord->0,
                        state: state->0,
                    },
                )
            } else {
                None
            }
        },
        _ => None,
    }
}

/// The records of a JSON array, if every item has a record's shape.
pub open spec fn records_of(items: Seq<Json>) -> Option<Seq<RecordView>> {
    if forall|i: int| 0 <= i < items.len() ==> (#[trigger] record_of(items[i])) is Some {
        Some(Seq::new(items.len(), |i: int| record_of(items[i])->0))
    } else {
        None
    }
}

/// How a response's payload is classified: by its shape alone.
pub open spec fn payload_of(v: Json) -> PayloadView {
    match v {
        Json::Object(fields) => {
            let records = match lookup(fields@, "dnsrecords"@) {
                Some(Json::Array(items)) => records_of(items@),
                _ => None,
            };
            let session_id = required_str_of(lookup(fields@, "apisessionid"@));
            if records is Some {
                PayloadView::Records(records->0)
            } else if session_id is Some {
                PayloadView::SessionId(session_id->0)
            } else {
                PayloadView::Unknown
            }
        },
        _ => PayloadView::Unknown,
    }
}

/// The status that a status name denotes.
pub open spec fn status_named(s: Seq<char>) -> Option<ResponseStatus> {
    if s == "error"@ {
        Some(ResponseStatus::Error)
    } else if s == "started"@ {
        Some(ResponseStatus::Started)
    } else if s == "pending"@ {
        Some(ResponseStatus::Pending)
    } else if s == "warning"@ {
        Some(ResponseStatus::Warning)
    } else if s == "success"@ {
        Some(ResponseStatus::Success)
    } else {
        None
    }
}

pub open spec fn status_code_of(v: Option<Json>) -> Option<u32> {
    match v {
        Some(Json::Int(n)) => if n <= u32::MAX {
            Some(n as u32)
        } else {
            None
        },
        _ => None,
    }
}

/// The optional payload member: missing or null means no payload.
pub open spec fn response_data_of(v: Option<Json>) -> Option<PayloadView> {
    match v {
        None => None,
        Some(Json::Null) => None,
        Some(j) => Some(payload_of(j)),
    }
}

/// The envelope that a JSON response describes, if it is well formed.
pub open spec fn envelope_of(v: Json) -> Option<EnvelopeView> {
    match v {
        Json::Object(fields) => {
            let f = fields@;
            let server_request_id = required_str_of(lookup(f, "serverrequestid"@));
            let client_request_id = nullable_str_of(lookup(f, "clientrequestid"@));
            let action = required_str_of(lookup(f, "action"@));
            let status = match required_str_of(lookup(f, "status"@)) {
                Some(s) => status_named(s),
                None => None,
            };
            let status_code = status_code_of(lookup(f, "statuscode"@));
            let short_message = required_str_of(lookup(f, "shortmessage"@));
            let long_message = nullable_str_of(lookup(f, "longmessage"@));
            if server_request_id is Some && client_request_id is Some && action is Some
                && status is Some && status_code is Some && short_message is Some
                && long_message is Some {
                Some(
                    EnvelopeView {
                        server_request_id: server_request_id->0,
                        client_request_id: client_request_id->0,
                        action: action->0,
                        status: status->0,
                        status_code: status_code->0,
                        short_message: short_message->0,
                        long_message: long_message->0,
                        response_data: response_data_of(lookup(f, "responsedata"@)),
                    },
                )
            } else {
                None
            }
        },
        _ => None,
    }
}

fn read_required_str(fields: &Vec<(String, Json)>, key: &str) -> (r: Option<String>)
    ensures
        opt_view(r) == required_str_of(lookup(fields@, key@)),
{
    match find_member(fields, key) {
        Some(i) => match &fields[i].1 {
            Json::Str(s) => Some(s.clone()),
            _ => None,
        },
        None => None,
    }
}

fn read_nullable_str(fields: &Vec<(String, Json)>, key: &str) -> (r: Option<Option<String>>)
    ensures
        match r {
            Some(o) => nullable_str_of(lookup(fields@, key@)) == Some(opt_view(o)),
            None => nullable_str_of(lookup(fields@, key@)) is None,
        },
{
    match find_member(fields, key) {
        Some(i) => match &fields[i].1 {
            Json::Null => Some(None),
            Json::Str(s) => Some(Some(s.clone())),
            _ => None,
        },
        None => Some(None),
    }
}

fn read_nullable_bool(fields: &Vec<(String, Json)>, key: &str) -> (r: Option<Option<bool>>)
    ensures
        r == nullable_bool_of(lookup(fields@, key@)),
{
    match find_member(fields, key) {
        Some(i) => match &fields[i].1 {
            Json::Null => Some(None),
            Json::Bool(b) => Some(Some(*b)),
            _ => None,
        },
        None => Some(None),
    }
}

/// Decodes one record.
pub fn parse_record(v: &Json) -> (r: Option<DNSRecord>)
    ensures
        match r {
            Some(rec) => record_of(*v) == Some(rec@),
            None => record_of(*v) is None,
        },
{
    match v {
        Json::Object(fields) => {
            let id = read_nullable_str(fields, "id");
            let hostname = read_required_str(fields, "hostname");
            let record_type = read_required_str(fields, "type");
            let priority = read_nullable_str(fields, "priority");
            let destination = read_required_str(fields, "destination");
            let deleterecord = read_nullable_bool(fields, "deleterecord");
            let state = read_nullable_str(fields, "state");
            match (id, hostname, record_type, priority, destination, deleterecord, state) {
                (
                    Some(id),
                    Some(hostname),
                    Some(record_type),
                    Some(priority),
                    Some(destination),
                    Some(deleterecord),
                    Some(state),
                ) => Some(
                    DNSRecord { id, hostname, record_type, priority, destination, deleterecord, state },
                ),
                _ => None,
            }
        },
        _ => None,
    }
}

/// Decodes an array of records; fails if any item is not a record.
pub fn parse_records(items: &Vec<Json>) -> (r: Option<Vec<DNSRecord>>)
    ensures
        match r {
            Some(rs) => records_of(items@) == Some(records_view(rs@)),
            None => records_of(items@) is None,
        },
{
    let n = items.len();
    let mut out: Vec<DNSRecord> = Vec::new();
    let mut i: usize = 0;
    while i < n
        invariant
            n == items@.len(),
            i <= n,
            out@.len() == i,
            forall|j: int| 0 <= j < i ==> record_of(#[trigger] items@[j]) == Some(out@[j]@),
        decreases n - i,
    {
        match parse_record(&items[i]) {
            Some(rec) => out.push(rec),
            None => {
                assert(record_of(items@[i as int]) is None);
                return None;
            },
        }
        i = i + 1;
    }
    assert(forall|j: int| 0 <= j < n ==> (#[trigger] record_of(items@[j])) is Some);
    assert(records_view(out@) =~= Seq::new(items@.len(), |j: int| record_of(items@[j])->0));
    Some(out)
}

/// Classifies and decodes a response payload by its shape.
pub fn parse_payload(v: &Json) -> (r: ResponsePayload)
    ensures
        r@ == payload_of(*v),
{
    match v {
        Json::Object(fields) => {
            let records = match find_member(fields, "dnsrecords") {
                Some(i) => match &fields[i].1 {
                    Json::Array(items) => parse_records(items),
                    _ => None,
                },
                None => None,
            };
            match records {
                Some(rs) => ResponsePayload::Records(rs),
                None => match read_required_str(fields, "apisessionid") {
                    Some(s) => ResponsePayload::SessionId(s),
                    None => ResponsePayload::Unknown,
                },
            }
        },
        _ => ResponsePayload::Unknown,
    }
}

/// The status named by `s`.
pub fn parse_status(s: &str) -> (r: Option<ResponseStatus>)
    ensures
        r == status_named(s@),
{
    if str_eq(s, "error") {
        Some(ResponseStatus::Error)
    } else if str_eq(s, "started") {
        Some(ResponseStatus::Started)
    } else if str_eq(s, "pending") {
        Some(ResponseStatus::Pending)
    } else if str_eq(s, "warning") {
        Some(ResponseStatus::Warning)
    } else if str_eq(s, "success") {
        Some(ResponseStatus::Success)
    } else {
        None
    }
}

/// Decodes a response envelope; a malformed one is a protocol error.
pub fn parse_envelope(v: &Json) -> (r: Result<ResponseEnvelope, ApiError>)
    ensures
        match r {
            Ok(e) => envelope_of(*v) == Some(e@),
            Err(err) => envelope_of(*v) is None && err == ApiError::Protocol,
        },
{
    let fields = match v {
        Json::Object(fields) => fields,
        _ => return Err(ApiError::Protocol),
    };
    let server_request_id = read_required_str(fields, "serverrequestid");
    let client_request_id = read_nullable_str(fields, "clientrequestid");
    let action = read_required_str(fields, "action");
    let status = match read_required_str(fields, "status") {
        Some(s) => parse_status(s.as_str()),
        None => None,
    };
    let status_code: Option<u32> = match find_member(fields, "statuscode") {
        Some(i) => match &fields[i].1 {
            Json::Int(n) => if *n <= 0xffff_ffffu64 {
                Some(*n as u32)
            } else {
                None
            },
            _ => None,
        },
        None => None,
    };
    let short_message = read_required_str(fields, "shortmessage");
    let long_message = read_nullable_str(fields, "longmessage");
    let response_data = match find_member(fields, "responsedata") {
        Some(i) => match &fields[i].1 {
            Json::Null => None,
            j => Some(parse_payload(j)),
        },
        None => None,
    };
    match (
        server_request_id,
        client_request_id,
        action,
        status,
        status_code,
        short_message,
        long_message,
    ) {
        (
            Some(server_request_id),
            Some(client_request_id),
            Some(action),
            Some(status),
            Some(status_code),
            Some(short_message),
            Some(long_message),
        ) => Ok(
            ResponseEnvelope {
                server_request_id,
                client_request_id,
                action,
                status,
                status_code,
                short_message,
                long_message,
                response_data,
            },
        ),
        _ => Err(ApiError::Protocol),
    }
}

} // verus!
