use vstd::prelude::*;

use crate::envelope::{
    envelope_of, opt_view, parse_envelope, records_view, DNSRecord, PayloadView, RecordView,
    ResponsePayload, ResponseStatus,
};
use crate::error::ApiError;
use crate::json::{str_eq, Json};
use crate::request::{
    info_records_request, is_info_records_request, is_login_request, is_logout_request,
    is_update_records_request, login_request, logout_request, update_records_request,
};

verus! {

/// The credentials of a live session; the API password is not kept.
pub struct Session {
    token: String,
    customer_number: String,
    api_key: String,
}

pub struct SessionView {
    pub token: Seq<char>,
    pub customer_number: Seq<char>,
    pub api_key: Seq<char>,
}

/// Where a client stands in its lifetime.
pub enum SessionState {
    Unauthenticated,
    Authenticated(Session),
    Terminated,
}

pub enum StateView {
    Unauthenticated,
    Authenticated(SessionView),
    Terminated,
}

/// A client of the DNS API.
///
/// Each operation comes in two steps: a `..._request` method that builds the
/// request to send, and a method of the operation's own name that decides
/// the outcome from the decoded response.  Nothing is sent unless a session
/// is live, and once logged out the client stays logged out.
pub struct NetcupAPIClient {
    state: SessionState,
}

impl View for NetcupAPIClient {
    type V = StateView;

    closed spec fn view(&self) -> StateView {
        match self.state {
            SessionState::Unauthenticated => StateView::Unauthenticated,
            SessionState::Authenticated(s) => StateView::Authenticated(
                SessionView {
                    token: s.token@,
                    customer_number: s.customer_number@,
                    api_key: s.api_key@,
                },
            ),
            SessionState::Terminated => StateView::Terminated,
        }
    }
}

/// The record's identity is (hostname, "TXT", content).
pub open spec fn is_txt_match(r: RecordView, hostname: Seq<char>, content: Seq<char>) -> bool {
    r.hostname == hostname && r.record_type == "TXT"@ && r.destination == content
}

pub open spec fn has_txt_record(rs: Seq<RecordView>, hostname: Seq<char>, content: Seq<char>) -> bool {
    exists|i: int| 0 <= i < rs.len() && is_txt_match(#[trigger] rs[i], hostname, content)
}

/// The id of the first matching record, in list order.
pub open spec fn find_outcome(rs: Seq<RecordView>, hostname: Seq<char>, content: Seq<char>) -> Result<
    Seq<char>,
    ApiError,
>
    decreases rs.len(),
{
    if rs.len() == 0 {
        Err(ApiError::NotFound)
    } else if is_txt_match(rs[0], hostname, content) {
        match rs[0].id {
            Some(id) => Ok(id),
            None => Err(ApiError::MissingId),
        }
    } else {
        find_outcome(rs.drop_first(), hostname, content)
    }
}

/// The record proposed for a TXT operation.
pub open spec fn txt_record_view(
    id: Option<Seq<char>>,
    hostname: Seq<char>,
    content: Seq<char>,
    deleterecord: Option<bool>,
) -> RecordView {
    RecordView {
        id,
        hostname,
        record_type: "TXT"@,
        priority: None,
        destination: content,
        deleterecord,
        state: None,
    }
}

/// What a login response yields: the session id, whatever the status says.
pub open spec fn login_outcome(response: Json) -> Result<Seq<char>, ApiError> {
    match envelope_of(response) {
        None => Err(ApiError::Protocol),
        Some(e) => match e.response_data {
            Some(PayloadView::SessionId(t)) => Ok(t),
            _ => Err(ApiError::Auth),
        },
    }
}

/// What a listing response yields in state `s`.
pub open spec fn list_outcome(s: StateView, response: Json) -> Result<Seq<RecordView>, ApiError> {
    if !(s is Authenticated) {
        Err(ApiError::Auth)
    } else {
        match envelope_of(response) {
            None => Err(ApiError::Protocol),
            Some(e) => match e.response_data {
                Some(PayloadView::Records(rs)) => Ok(rs),
                _ => Err(ApiError::Protocol),
            },
        }
    }
}

/// What a lookup of a TXT record yields from a listing response.
pub open spec fn find_id_outcome(
    s: StateView,
    response: Json,
    hostname: Seq<char>,
    content: Seq<char>,
) -> Result<Seq<char>, ApiError> {
    match list_outcome(s, response) {
        Ok(rs) => find_outcome(rs, hostname, content),
        Err(e) => Err(e),
    }
}

/// What a creation response yields: success only if the server echoes the record.
pub open spec fn add_outcome(
    s: StateView,
    response: Json,
    hostname: Seq<char>,
    content: Seq<char>,
) -> Result<(), ApiError> {
    if !(s is Authenticated) {
        Err(ApiError::Auth)
    } else {
        match envelope_of(response) {
            None => Err(ApiError::Protocol),
            Some(e) => match e.response_data {
                Some(PayloadView::Records(rs)) => if has_txt_record(rs, hostname, content) {
                    Ok(())
                } else {
                    Err(ApiError::Verification)
                },
                _ => Err(ApiError::Protocol),
            },
        }
    }
}

/// What a deletion response yields: success exactly when the status is `Success`.
pub open spec fn delete_outcome(s: StateView, response: Json) -> Result<(), ApiError> {
    if !(s is Authenticated) {
        Err(ApiError::Auth)
    } else {
        match envelope_of(response) {
            None => Err(ApiError::Protocol),
            Some(e) => if e.status == ResponseStatus::Success {
                Ok(())
            } else {
                Err(ApiError::Status)
            },
        }
    }
}

pub open spec fn records_result_view(r: Result<Vec<DNSRecord>, ApiError>) -> Result<
    Seq<RecordView>,
    ApiError,
> {
    match r {
        Ok(rs) => Ok(records_view(rs@)),
        Err(e) => Err(e),
    }
}

pub open spec fn string_result_view(r: Result<String, ApiError>) -> Result<Seq<char>, ApiError> {
    match r {
        Ok(s) => Ok(s@),
        Err(e) => Err(e),
    }
}

/// Whether `r` is the TXT record (hostname, content).
pub fn is_txt_record(r: &DNSRecord, hostname: &str, content: &str) -> (b: bool)
    ensures
        b == is_txt_match(r@, hostname@, content@),
{
    str_eq(r.hostname.as_str(), hostname) && str_eq(r.record_type.as_str(), "TXT") && str_eq(
        r.destination.as_str(),
        content,
    )
}

/// Whether the list holds the TXT record (hostname, content).
pub fn contains_txt_record(records: &Vec<DNSRecord>, hostname: &str, content: &str) -> (b: bool)
    ensures
        b == has_txt_record(records_view(records@), hostname@, content@),
{
    let n = records.len();
    let mut i: usize = 0;
    while i < n
        invariant
            n == records@.len(),
            i <= n,
            forall|j: int|
                0 <= j < i ==> !is_txt_match(#[trigger] records_view(records@)[j], hostname@, content@),
        decreases n - i,
    {
        if is_txt_record(&records[i], hostname, content) {
            assert(is_txt_match(records_view(records@)[i as int], hostname@, content@));
            return true;
        }
        i = i + 1;
    }
    false
}

/// The id of the first TXT record (hostname, content), in list order.
pub fn find_txt_record(records: &Vec<DNSRecord>, hostname: &str, content: &str) -> (r: Result<
    String,
    ApiError,
>)
    ensures
        string_result_view(r) == find_outcome(records_view(records@), hostname@, content@),
{
    let n = records.len();
    let ghost rs = records_view(records@);
    let mut i: usize = 0;
    assert(rs =~= rs.subrange(0, n as int));
    while i < n
        invariant
            n == records@.len(),
            rs == records_view(records@),
            i <= n,
            find_outcome(rs, hostname@, content@) == find_outcome(
                rs.subrange(i as int, n as int),
                hostname@,
                content@,
            ),
        decreases n - i,
    {
        assert(rs.subrange(i as int, n as int).drop_first() =~= rs.subrange(i + 1, n as int));
        let rec = &records[i];
        if is_txt_record(rec, hostname, content) {
            return match &rec.id {
                Some(id) => Ok(id.clone()),
                None => Err(ApiError::MissingId),
            };
        }
        i = i + 1;
    }
    Err(ApiError::NotFound)
}

/// A TXT record with the given id and deletion flag.
pub fn txt_record(id: Option<String>, hostname: &str, content: &str, deleterecord: Option<bool>) -> (r:
    DNSRecord)
    ensures
        r@ == txt_record_view(opt_view(id), hostname@, content@, deleterecord),
{
    DNSRecord {
        id,
        hostname: String::from_str(hostname),
        record_type: String::from_str("TXT"),
        priority: None,
        destination: String::from_str(content),
        deleterecord,
        state: None,
    }
}

impl NetcupAPIClient {
    /// A client with no session yet.
    pub fn new() -> (r: Self)
        ensures
            r@ is Unauthenticated,
    {
        NetcupAPIClient { state: SessionState::Unauthenticated }
    }

    /// The token of the live session, if any.
    pub fn session_token(&self) -> (r: Option<String>)
        ensures
            match self@ {
                StateView::Authenticated(s) => opt_view(r) == Some(s.token),
                _ => r is None,
            },
    {
        match &self.state {
            SessionState::Authenticated(s) => Some(s.token.clone()),
            _ => None,
        }
    }

    /// Whether a session is live.
    pub fn is_authenticated(&self) -> (b: bool)
        ensures
            b == (self@ is Authenticated),
    {
        match &self.state {
            SessionState::Authenticated(_) => true,
            _ => false,
        }
    }

    /// The `login` request; only a client that never had a session may log in.
    pub fn login_request(&self, customer_number: &str, api_password: &str, api_key: &str) -> (r:
        Result<Json, ApiError>)
        ensures
            match r {
                Ok(j) => self@ is Unauthenticated && is_login_request(
                    j,
                    customer_number@,
                    api_password@,
                    api_key@,
                ),
                Err(e) => !(self@ is Unauthenticated) && e == ApiError::Auth,
            },
    {
        match &self.state {
            SessionState::Unauthenticated => Ok(
                login_request(customer_number, api_password, api_key),
            ),
            _ => Err(ApiError::Auth),
        }
    }

    /// Completes a login from its response: a session-id payload opens the
    /// session; any other payload is an authentication failure.
    pub fn login(&mut self, customer_number: String, api_key: String, response: &Json) -> (r: Result<
        (),
        ApiError,
    >)
        ensures
            !(old(self)@ is Unauthenticated) ==> r == Err::<(), ApiError>(ApiError::Auth)
                && final(self)@ == old(self)@,
            old(self)@ is Unauthenticated ==> match login_outcome(*response) {
                Ok(t) => r is Ok && final(self)@ == StateView::Authenticated(
                    SessionView { token: t, customer_number: customer_number@, api_key: api_key@ },
                ),
                Err(e) => r == Err::<(), ApiError>(e) && final(self)@ == old(self)@,
            },
    {
        match &self.state {
            SessionState::Unauthenticated => {},
            _ => return Err(ApiError::Auth),
        }
        let envelope = match parse_envelope(response) {
            Ok(e) => e,
            Err(e) => return Err(e),
        };
        match envelope.response_data {
            Some(ResponsePayload::SessionId(token)) => {
                self.state = SessionState::Authenticated(
                    Session { token, customer_number, api_key },
                );
                Ok(())
            },
            _ => Err(ApiError::Auth),
        }
    }

    /// The `logout` request; the session ends here, whether or not the
    /// request reaches the server.
    pub fn logout(&mut self) -> (r: Result<Json, ApiError>)
        ensures
            match old(self)@ {
                StateView::Authenticated(s) => final(self)@ is Terminated && (r matches Ok(j)
                    && is_logout_request(j, s.api_key, s.token, s.customer_number)),
                _ => final(self)@ == old(self)@ && r == Err::<Json, ApiError>(ApiError::Auth),
            },
    {
        let j = match &self.state {
            SessionState::Authenticated(s) => logout_request(
                s.api_key.as_str(),
                s.token.as_str(),
                s.customer_number.as_str(),
            ),
            _ => return Err(ApiError::Auth),
        };
        self.state = SessionState::Terminated;
        Ok(j)
    }

    /// The `infoDnsRecords` request for `domain`.
    pub fn list_records_request(&self, domain: &str) -> (r: Result<Json, ApiError>)
        ensures
            match self@ {
                StateView::Authenticated(s) => r matches Ok(j) && is_info_records_request(
                    j,
                    s.api_key,
                    s.token,
                    s.customer_number,
                    domain@,
                ),
                _ => r matches Err(e) && e == ApiError::Auth,
            },
    {
        match &self.state {
            SessionState::Authenticated(s) => Ok(
                info_records_request(
                    s.api_key.as_str(),
                    s.token.as_str(),
                    s.customer_number.as_str(),
                    domain,
                ),
            ),
            _ => Err(ApiError::Auth),
        }
    }

    /// The records of a listing response, in the server's order.
    pub fn list_records(&self, response: &Json) -> (r: Result<Vec<DNSRecord>, ApiError>)
        ensures
            records_result_view(r) == list_outcome(self@, *response),
    {
        match &self.state {
            SessionState::Authenticated(_) => {},
            _ => return Err(ApiError::Auth),
        }
        let envelope = match parse_envelope(response) {
            Ok(e) => e,
            Err(e) => return Err(e),
        };
        match envelope.response_data {
            Some(ResponsePayload::Records(records)) => Ok(records),
            _ => Err(ApiError::Protocol),
        }
    }

    /// The id of the first TXT record (hostname, content) of a listing response.
    pub fn find_txt_record_id(&self, response: &Json, hostname: &str, content: &str) -> (r: Result<
        String,
        ApiError,
    >)
        ensures
            string_result_view(r) == find_id_outcome(self@, *response, hostname@, content@),
    {
        let records = match self.list_records(response) {
            Ok(rs) => rs,
            Err(e) => return Err(e),
        };
        find_txt_record(&records, hostname, content)
    }

    /// The `updateDnsRecords` request that creates the TXT record (hostname, content).
    pub fn add_txt_record_request(&self, domain: &str, hostname: &str, content: &str) -> (r: Result<
        Json,
        ApiError,
    >)
        ensures
            match self@ {
                StateView::Authenticated(s) => r matches Ok(j) && is_update_records_request(
                    j,
                    s.api_key,
                    s.token,
                    s.customer_number,
                    domain@,
                    txt_record_view(None, hostname@, content@, None),
                ),
                _ => r matches Err(e) && e == ApiError::Auth,
            },
    {
        match &self.state {
            SessionState::Authenticated(s) => {
                let rec = txt_record(None, hostname, content, None);
                Ok(
                    update_records_request(
                        s.api_key.as_str(),
                        s.token.as_str(),
                        s.customer_number.as_str(),
                        domain,
                        &rec,
                    ),
                )
            },
            _ => Err(ApiError::Auth),
        }
    }

    /// Checks a creation response: the echoed records must hold the new record.
    pub fn add_txt_record(&self, response: &Json, hostname: &str, content: &str) -> (r: Result<
        (),
        ApiError,
    >)
        ensures
            r == add_outcome(self@, *response, hostname@, content@),
    {
        match &self.state {
            SessionState::Authenticated(_) => {},
            _ => return Err(ApiError::Auth),
        }
        let envelope = match parse_envelope(response) {
            Ok(e) => e,
            Err(e) => return Err(e),
        };
        match &envelope.response_data {
            Some(ResponsePayload::Records(records)) => if contains_txt_record(
                records,
                hostname,
                content,
            ) {
                Ok(())
            } else {
                Err(ApiError::Verification)
            },
            _ => Err(ApiError::Protocol),
        }
    }

    /// The `updateDnsRecords` request that deletes the TXT record `id`.
    pub fn delete_record_request(&self, id: &str, domain: &str, hostname: &str, content: &str) -> (r:
        Result<Json, ApiError>)
        ensures
            match self@ {
                StateView::Authenticated(s) => r matches Ok(j) && is_update_records_request(
                    j,
                    s.api_key,
                    s.token,
                    s.customer_number,
                    domain@,
                    txt_record_view(Some(id@), hostname@, content@, Some(true)),
                ),
                _ => r matches Err(e) && e == ApiError::Auth,
            },
    {
        match &self.state {
            SessionState::Authenticated(s) => {
                let rec = txt_record(Some(String::from_str(id)), hostname, content, Some(true));
                Ok(
                    update_records_request(
                        s.api_key.as_str(),
                        s.token.as_str(),
                        s.customer_number.as_str(),
                        domain,
                        &rec,
                    ),
                )
            },
            _ => Err(ApiError::Auth),
        }
    }

    /// Checks a deletion response by its status alone.
    pub fn delete_record(&self, response: &Json) -> (r: Result<(), ApiError>)
        ensures
            r == delete_outcome(self@, *response),
    {
        match &self.state {
            SessionState::Authenticated(_) => {},
            _ => return Err(ApiError::Auth),
        }
        let envelope = match parse_envelope(response) {
            Ok(e) => e,
            Err(e) => return Err(e),
        };
        match envelope.status {
            ResponseStatus::Success => Ok(()),
            _ => Err(ApiError::Status),
        }
    }
}

} // verus!
