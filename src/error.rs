//! The error taxonomy of the client.
use vstd::prelude::*;

verus! {

/// Error of the HTTP transport (reqwest), carried through unchanged.
#[verifier::external_type_specification]
#[verifier::external_body]
pub struct ExHttpError(reqwest::Error);

/// Error of the WebSocket transport (tungstenite), carried through unchanged.
#[verifier::external_type_specification]
#[verifier::external_body]
pub struct ExWebSocketError(tokio_tungstenite::tungstenite::Error);

/// Error of JSON encoding or decoding (serde_json), carried through unchanged.
#[verifier::external_type_specification]
#[verifier::external_body]
pub struct ExJsonError(serde_json::Error);

/// Everything a client call can fail with.
#[derive(Debug)]
pub enum VernachainError {
    HttpError(reqwest::Error),
    WebSocketError(tokio_tungstenite::tungstenite::Error),
    SerializationError(serde_json::Error),
    AuthenticationError,
    ValidationError(String),
    NetworkError(String),
    UnexpectedResponseError(String),
    WebSocketClosed,
    TimeoutError,
    RateLimitError,
    InternalError(String),
}

} // verus!
