use vstd::prelude::*;

verus! {

/// Why an operation failed.
#[derive(Clone, Copy, Debug, PartialEq, Eq, Structural)]
pub enum ApiError {
    /// The endpoint could not be reached.
    Transport,
    /// The response is not a well-formed envelope, or its payload does not
    /// have the shape that the operation needs.
    Protocol,
    /// Login yielded no session id, or no session is live.
    Auth,
    /// No record matches.
    NotFound,
    /// The matching record has no server-assigned id.
    MissingId,
    /// A created record is missing from the records that the server echoed.
    Verification,
    /// The envelope's status is not `Success`.
    Status,
}

} // verus!
