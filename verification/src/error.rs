//! The ways in which an attempt on one member can fail.

use vstd::prelude::*;

verus! {

/// `serde_json::Error`: why a body could not be read as JSON of the expected shape.
/// Nothing is known of its contents here; it is handed on to the caller as it came.
#[verifier::external_type_specification]
#[verifier::external_body]
pub struct ExSerializationError(serde_json::Error);

/// `hyper::Error`: why no answer came back from a member.
/// Nothing is known of its contents here; it is handed on to the caller as it came.
#[verifier::external_type_specification]
#[verifier::external_body]
pub struct ExHttpError(hyper::Error);

/// `hyper::error::UriError`: why a text is no URI.
/// Nothing is known of its contents here; it is handed on to the caller as it came.
#[verifier::external_type_specification]
#[verifier::external_body]
pub struct ExUriError(hyper::error::UriError);

/// An error that a member reported in the body of its answer.
#[derive(Debug, Clone, PartialEq, Eq, Hash)]
pub struct ApiError {
    /// The key that was operated upon, or the reason of the failure.
    pub cause: Option<String>,
    /// The error code of etcd.
    pub error_code: u64,
    /// The index of etcd.
    pub index: u64,
    /// A description of the error for people.
    pub message: String,
}

/// A failure below the level of HTTP answers: no request was sent, or no answer was received.
#[derive(Debug)]
pub enum TransportError {
    /// The URL made of the member's address and the path of the call is no URI.
    InvalidUri(hyper::error::UriError),
    /// The connection failed, timed out or broke the protocol.
    Http(hyper::Error),
}

/// The failure of an attempt on one member.
#[derive(Debug)]
pub enum AuthError {
    /// The member could not be reached, or its address gives no URI.
    Transport(TransportError),
    /// The body of the answer has not the shape that its status calls for.
    Serialization(serde_json::Error),
    /// The member answered with an error of its own.
    Application(ApiError),
    /// The member answered with a status that the operation does not know.
    UnexpectedStatus(u16),
}

impl AuthError {
    /// Whether the failure is one of the transport.
    pub fn is_transport(&self) -> (r: bool)
        ensures
            r == (self is Transport),
    {
        match self {
            AuthError::Transport(_) => true,
            _ => false,
        }
    }
}

} // verus!
