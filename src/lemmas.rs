use vstd::prelude::*;

use crate::client::{
    add_outcome, delete_outcome, find_outcome, has_txt_record, is_txt_match, list_outcome,
    login_outcome, records_result_view, StateView,
};
use crate::envelope::{envelope_of, DNSRecord, EnvelopeView, PayloadView, RecordView, ResponseStatus};
use crate::error::ApiError;
use crate::json::Json;

verus! {

/// `rs[i]` matches, and no record before it does.
pub open spec fn is_first_txt_match(rs: Seq<RecordView>, i: int, hostname: Seq<char>, content: Seq<char>) -> bool {
    &&& 0 <= i < rs.len()
    &&& is_txt_match(rs[i], hostname, content)
    &&& forall|j: int| 0 <= j < i ==> !is_txt_match(#[trigger] rs[j], hostname, content)
}

/// The envelope's payload is a record list that holds the TXT record.
pub open spec fn echoes_txt_record(e: EnvelopeView, hostname: Seq<char>, content: Seq<char>) -> bool {
    match e.response_data {
        Some(PayloadView::Records(rs)) => has_txt_record(rs, hostname, content),
        _ => false,
    }
}

/// The envelope's payload is a record list that lacks the TXT record.
pub open spec fn echo_lacks_txt_record(e: EnvelopeView, hostname: Seq<char>, content: Seq<char>) -> bool {
    match e.response_data {
        Some(PayloadView::Records(rs)) => !has_txt_record(rs, hostname, content),
        _ => false,
    }
}

/// A well-formed login response yields exactly the session id that its
/// payload carries, and an authentication failure for every other payload.
pub proof fn lemma_login_takes_session_id(response: Json)
    requires
        envelope_of(response) is Some,
    ensures
        match envelope_of(response)->0.response_data {
            Some(PayloadView::SessionId(t)) => login_outcome(response) == Ok::<
                Seq<char>,
                ApiError,
            >(t),
            _ => login_outcome(response) == Err::<Seq<char>, ApiError>(ApiError::Auth),
        },
{
}

/// The status of a login response does not matter: two well-formed responses
/// with the same payload give the same outcome.
pub proof fn lemma_login_ignores_status(a: Json, b: Json)
    requires
        envelope_of(a) is Some,
        envelope_of(b) is Some,
        envelope_of(a)->0.response_data == envelope_of(b)->0.response_data,
    ensures
        login_outcome(a) == login_outcome(b),
{
}

/// The lookup gives the id of the first matching record in list order; it
/// is `NotFound` exactly when no record matches, and `MissingId` exactly when
/// the first match has no id.
pub proof fn lemma_find_first_match(rs: Seq<RecordView>, hostname: Seq<char>, content: Seq<char>)
    ensures
        match find_outcome(rs, hostname, content) {
            Ok(id) => exists|i: int|
                is_first_txt_match(rs, i, hostname, content) && #[trigger] rs[i].id == Some(id),
            Err(ApiError::NotFound) => !has_txt_record(rs, hostname, content),
            Err(ApiError::MissingId) => exists|i: int|
                is_first_txt_match(rs, i, hostname, content) && #[trigger] rs[i].id is None,
            Err(_) => false,
        },
    decreases rs.len(),
{
    if rs.len() == 0 {
    } else if is_txt_match(rs[0], hostname, content) {
        assert(is_first_txt_match(rs, 0, hostname, content));
    } else {
        let rest = rs.drop_first();
        lemma_find_first_match(rest, hostname, content);
        assert forall|i: int|
            is_first_txt_match(rest, i, hostname, content) implies is_first_txt_match(
            rs,
            i + 1,
            hostname,
            content,
        ) by {
            assert forall|j: int| 0 <= j < i + 1 implies !is_txt_match(
                #[trigger] rs[j],
                hostname,
                content,
            ) by {
                if j > 0 {
                    assert(rs[j] == rest[j - 1]);
                }
            }
        }
        match find_outcome(rest, hostname, content) {
            Ok(id) => {
                let i = choose|i: int|
                    is_first_txt_match(rest, i, hostname, content) && #[trigger] rest[i].id == Some(
                        id,
                    );
                assert(rs[i + 1] == rest[i]);
            },
            Err(ApiError::MissingId) => {
                let i = choose|i: int|
                    is_first_txt_match(rest, i, hostname, content) && #[trigger] rest[i].id is None;
                assert(rs[i + 1] == rest[i]);
            },
            Err(_) => {
                assert forall|i: int| 0 <= i < rs.len() implies !is_txt_match(
                    #[trigger] rs[i],
                    hostname,
                    content,
                ) by {
                    if i > 0 {
                        assert(rs[i] == rest[i - 1]);
                    }
                }
            },
        }
    }
}

/// Listing depends on the client's state and the response alone: two calls
/// on the same state and the same response give the same records, in the
/// same order.
pub proof fn lemma_list_records_repeatable(
    s: StateView,
    response: Json,
    first: Result<Vec<DNSRecord>, ApiError>,
    second: Result<Vec<DNSRecord>, ApiError>,
)
    requires
        records_result_view(first) == list_outcome(s, response),
        records_result_view(second) == list_outcome(s, response),
    ensures
        records_result_view(first) == records_result_view(second),
{
}

/// Creation succeeds exactly when the echoed records hold the new record;
/// where they lack it, the outcome is a verification failure, whatever the
/// status says.
pub proof fn lemma_add_needs_echo(s: StateView, response: Json, hostname: Seq<char>, content: Seq<char>)
    requires
        s is Authenticated,
        envelope_of(response) is Some,
    ensures
        (add_outcome(s, response, hostname, content) is Ok) <==> echoes_txt_record(
            envelope_of(response)->0,
            hostname,
            content,
        ),
        echo_lacks_txt_record(envelope_of(response)->0, hostname, content) ==> add_outcome(
            s,
            response,
            hostname,
            content,
        ) == Err::<(), ApiError>(ApiError::Verification),
{
}

/// Deletion succeeds exactly when the status is `Success`; any other status
/// is a status failure, whatever the payload holds.
pub proof fn lemma_delete_by_status(s: StateView, response: Json)
    requires
        s is Authenticated,
        envelope_of(response) is Some,
    ensures
        (delete_outcome(s, response) is Ok) <==> envelope_of(response)->0.status
            == ResponseStatus::Success,
        envelope_of(response)->0.status != ResponseStatus::Success ==> delete_outcome(s, response)
            == Err::<(), ApiError>(ApiError::Status),
{
}

} // verus!
