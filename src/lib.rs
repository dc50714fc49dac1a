//! Client logic for a DNS control-panel JSON API: request envelopes, response
//! decoding, session lifecycle and the TXT-record operations of a DNS-01 challenge.
//! Network transport is left to the caller: each operation is split into a
//! request builder and a verified decision on the decoded response.
pub mod client;
pub mod envelope;
pub mod error;
pub mod json;
pub mod lemmas;
pub mod request;
pub mod text;

pub use client::NetcupAPIClient;
pub use envelope::{DNSRecord, ResponseEnvelope, ResponsePayload, ResponseStatus};
pub use error::ApiError;
pub use json::Json;
