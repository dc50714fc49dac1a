use vstd::prelude::*;

use crate::envelope::{record_of, DNSRecord, RecordView};
use crate::json::{lemma_lookup_at, member_is_str, str_member, str_of, Json};

verus! {

/// The member `m` is named `key` and holds `value` as a string, or null where
/// there is no value.
pub open spec fn member_is_nullable_str(
    m: (String, Json),
    key: Seq<char>,
    value: Option<Seq<char>>,
) -> bool {
    m.0@ == key && match value {
        Some(s) => str_of(m.1) == Some(s),
        None => m.1 is Null,
    }
}

/// The member `m` is named `key` and holds `value` as a boolean, or null.
pub open spec fn member_is_nullable_bool(m: (String, Json), key: Seq<char>, value: Option<bool>) -> bool {
    m.0@ == key && match value {
        Some(b) => m.1 == Json::Bool(b),
        None => m.1 is Null,
    }
}

/// `j` is the wire form of `rec`: all seven members, in order, absent values as null.
pub open spec fn is_record_json(j: Json, rec: RecordView) -> bool {
    match j {
        Json::Object(f) => {
            &&& f@.len() == 7
            &&& member_is_nullable_str(f@[0], "id"@, rec.id)
            &&& member_is_str(f@[1], "hostname"@, rec.hostname)
            &&& member_is_str(f@[2], "type"@, rec.record_type)
            &&& member_is_nullable_str(f@[3], "priority"@, rec.priority)
            &&& member_is_str(f@[4], "destination"@, rec.destination)
            &&& member_is_nullable_bool(f@[5], "deleterecord"@, rec.deleterecord)
            &&& member_is_nullable_str(f@[6], "state"@, rec.state)
        },
        _ => false,
    }
}

/// The members of `param` where `j` is `{"action": action, "param": {...}}`.
pub open spec fn request_params(j: Json, action: Seq<char>) -> Option<Seq<(String, Json)>> {
    match j {
        Json::Object(top) => if top@.len() == 2 && member_is_str(top@[0], "action"@, action)
            && top@[1].0@ == "param"@ {
            match top@[1].1 {
                Json::Object(p) => Some(p@),
                _ => None,
            }
        } else {
            None
        },
        _ => None,
    }
}

/// The leading members that authorize a request within a session.
pub open spec fn session_params_are(
    p: Seq<(String, Json)>,
    api_key: Seq<char>,
    session_id: Seq<char>,
    customer_number: Seq<char>,
) -> bool {
    &&& p.len() >= 3
    &&& member_is_str(p[0], "apikey"@, api_key)
    &&& member_is_str(p[1], "apisessionid"@, session_id)
    &&& member_is_str(p[2], "customernumber"@, customer_number)
}

/// The member `m` is a record set holding exactly the one record `rec`.
pub open spec fn is_single_record_set(m: (String, Json), rec: RecordView) -> bool {
    m.0@ == "dnsrecordset"@ && match m.1 {
        Json::Object(set) => set@.len() == 1 && set@[0].0@ == "dnsrecords"@ && match set@[0].1 {
            Json::Array(items) => items@.len() == 1 && is_record_json(items@[0], rec),
            _ => false,
        },
        _ => false,
    }
}

/// `j` is the `login` request for these credentials.
pub open spec fn is_login_request(
    j: Json,
    customer_number: Seq<char>,
    api_password: Seq<char>,
    api_key: Seq<char>,
) -> bool {
    match request_params(j, "login"@) {
        Some(p) => {
            &&& p.len() == 3
            &&& member_is_str(p[0], "apikey"@, api_key)
            &&& member_is_str(p[1], "apipassword"@, api_password)
            &&& member_is_str(p[2], "customernumber"@, customer_number)
        },
        None => false,
    }
}

/// `j` is the `logout` request of a session.
pub open spec fn is_logout_request(
    j: Json,
    api_key: Seq<char>,
    session_id: Seq<char>,
    customer_number: Seq<char>,
) -> bool {
    match request_params(j, "logout"@) {
        Some(p) => p.len() == 3 && session_params_are(p, api_key, session_id, customer_number),
        None => false,
    }
}

/// `j` is the `infoDnsRecords` request of a session for `domain`.
pub open spec fn is_info_records_request(
    j: Json,
    api_key: Seq<char>,
    session_id: Seq<char>,
    customer_number: Seq<char>,
    domain: Seq<char>,
) -> bool {
    match request_params(j, "infoDnsRecords"@) {
        Some(p) => {
            &&& p.len() == 4
            &&& session_params_are(p, api_key, session_id, customer_number)
            &&& member_is_str(p[3], "domainname"@, domain)
        },
        None => false,
    }
}

/// `j` is the `updateDnsRecords` request of a session that submits `rec` for `domain`.
pub open spec fn is_update_records_request(
    j: Json,
    api_key: Seq<char>,
    session_id: Seq<char>,
    customer_number: Seq<char>,
    domain: Seq<char>,
    rec: RecordView,
) -> bool {
    match request_params(j, "updateDnsRecords"@) {
        Some(p) => {
            &&& p.len() == 5
            &&& session_params_are(p, api_key, session_id, customer_number)
            &&& member_is_str(p[3], "domainname"@, domain)
            &&& is_single_record_set(p[4], rec)
        },
        None => false,
    }
}

fn nullable_str_member(key: &str, value: &Option<String>) -> (r: (String, Json))
    ensures
        member_is_nullable_str(r, key@, crate::envelope::opt_view(*value)),
{
    let v = match value {
        Some(s) => Json::Str(s.clone()),
        None => Json::Null,
    };
    (String::from_str(key), v)
}

/// Encodes a record with every member, absent values as null.
pub fn record_json(rec: &DNSRecord) -> (r: Json)
    ensures
        is_record_json(r, rec@),
        record_of(r) == Some(rec@),
{
    let mut f: Vec<(String, Json)> = Vec::new();
    f.push(nullable_str_member("id", &rec.id));
    f.push(str_member("hostname", rec.hostname.as_str()));
    f.push(str_member("type", rec.record_type.as_str()));
    f.push(nullable_str_member("priority", &rec.priority));
    f.push(str_member("destination", rec.destination.as_str()));
    let del = match rec.deleterecord {
        Some(b) => Json::Bool(b),
        None => Json::Null,
    };
    f.push((String::from_str("deleterecord"), del));
    f.push(nullable_str_member("state", &rec.state));
    proof {
        reveal_strlit("id");
        reveal_strlit("hostname");
        reveal_strlit("type");
        reveal_strlit("priority");
        reveal_strlit("destination");
        reveal_strlit("deleterecord");
        reveal_strlit("state");
        let fs = f@;
        lemma_lookup_at(fs, "id"@, 0);
        assert(fs[0].0@ != "hostname"@) by { assert("id"@[0] != "hostname"@[0]); }
        lemma_lookup_at(fs, "hostname"@, 1);
        assert(fs[0].0@ != "type"@) by { assert("id"@[0] != "type"@[0]); }
        assert(fs[1].0@ != "type"@) by { assert("hostname"@[0] != "type"@[0]); }
        lemma_lookup_at(fs, "type"@, 2);
        assert(fs[0].0@ != "priority"@) by { assert("id"@[0] != "priority"@[0]); }
        assert(fs[1].0@ != "priority"@) by { assert("hostname"@[0] != "priority"@[0]); }
        assert(fs[2].0@ != "priority"@) by { assert("type"@[0] != "priority"@[0]); }
        lemma_lookup_at(fs, "priority"@, 3);
        assert(fs[0].0@ != "destination"@) by { assert("id"@[0] != "destination"@[0]); }
        assert(fs[1].0@ != "destination"@) by { assert("hostname"@[0] != "destination"@[0]); }
        assert(fs[2].0@ != "destination"@) by { assert("type"@[0] != "destination"@[0]); }
        assert(fs[3].0@ != "destination"@) by { assert("priority"@[0] != "destination"@[0]); }
        lemma_lookup_at(fs, "destination"@, 4);
        assert(fs[0].0@ != "deleterecord"@) by { assert("id"@[0] != "deleterecord"@[0]); }
        assert(fs[1].0@ != "deleterecord"@) by { assert("hostname"@[0] != "deleterecord"@[0]); }
        assert(fs[2].0@ != "deleterecord"@) by { assert("type"@[0] != "deleterecord"@[0]); }
        assert(fs[3].0@ != "deleterecord"@) by { assert("priority"@[0] != "deleterecord"@[0]); }
        assert(fs[4].0@ != "deleterecord"@) by { assert("destination"@.len() != "deleterecord"@.len()); }
        lemma_lookup_at(fs, "deleterecord"@, 5);
        assert(fs[0].0@ != "state"@) by { assert("id"@[0] != "state"@[0]); }
        assert(fs[1].0@ != "state"@) by { assert("hostname"@[0] != "state"@[0]); }
        assert(fs[2].0@ != "state"@) by { assert("type"@[0] != "state"@[0]); }
        assert(fs[3].0@ != "state"@) by { assert("priority"@[0] != "state"@[0]); }
        assert(fs[4].0@ != "state"@) by { assert("destination"@[0] != "state"@[0]); }
        assert(fs[5].0@ != "state"@) by { assert("deleterecord"@[0] != "state"@[0]); }
        lemma_lookup_at(fs, "state"@, 6);
    }
    Json::Object(f)
}

/// Wraps parameters into the request envelope of `action`.
pub fn request(action: &str, params: Vec<(String, Json)>) -> (r: Json)
    ensures
        request_params(r, action@) == Some(params@),
{
    let mut top: Vec<(String, Json)> = Vec::new();
    top.push(str_member("action", action));
    top.push((String::from_str("param"), Json::Object(params)));
    Json::Object(top)
}

/// The `login` request.
pub fn login_request(customer_number: &str, api_password: &str, api_key: &str) -> (r: Json)
    ensures
        is_login_request(r, customer_number@, api_password@, api_key@),
{
    let mut p: Vec<(String, Json)> = Vec::new();
    p.push(str_member("apikey", api_key));
    p.push(str_member("apipassword", api_password));
    p.push(str_member("customernumber", customer_number));
    request("login", p)
}

fn session_params(api_key: &str, session_id: &str, customer_number: &str) -> (r: Vec<
    (String, Json),
>)
    ensures
        r@.len() == 3,
        session_params_are(r@, api_key@, session_id@, customer_number@),
{
    let mut p: Vec<(String, Json)> = Vec::new();
    p.push(str_member("apikey", api_key));
    p.push(str_member("apisessionid", session_id));
    p.push(str_member("customernumber", customer_number));
    p
}

/// The `logout` request that ends a session.
pub fn logout_request(api_key: &str, session_id: &str, customer_number: &str) -> (r: Json)
    ensures
        is_logout_request(r, api_key@, session_id@, customer_number@),
{
    request("logout", session_params(api_key, session_id, customer_number))
}

/// The `infoDnsRecords` request that lists the records of `domain`.
pub fn info_records_request(
    api_key: &str,
    session_id: &str,
    customer_number: &str,
    domain: &str,
) -> (r: Json)
    ensures
        is_info_records_request(r, api_key@, session_id@, customer_number@, domain@),
{
    let mut p = session_params(api_key, session_id, customer_number);
    p.push(str_member("domainname", domain));
    request("infoDnsRecords", p)
}

/// The `updateDnsRecords` request that submits the one record `record` of `domain`.
pub fn update_records_request(
    api_key: &str,
    session_id: &str,
    customer_number: &str,
    domain: &str,
    record: &DNSRecord,
) -> (r: Json)
    ensures
        is_update_records_request(r, api_key@, session_id@, customer_number@, domain@, record@),
{
    let mut p = session_params(api_key, session_id, customer_number);
    p.push(str_member("domainname", domain));
    let mut items: Vec<Json> = Vec::new();
    items.push(record_json(record));
    let mut set: Vec<(String, Json)> = Vec::new();
    set.push((String::from_str("dnsrecords"), Json::Array(items)));
    p.push((String::from_str("dnsrecordset"), Json::Object(set)));
    request("updateDnsRecords", p)
}

} // verus!
