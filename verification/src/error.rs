//! The failure taxonomy of the credential subsystem. Nothing here is
//! retried automatically: an I/O failure on load is treated upstream as
//! "no session", every other failure aborts the invocation.

use vstd::prelude::*;

verus! {

/// Why an operation of the credential subsystem failed.
#[derive(Debug, Clone, PartialEq, Eq)]
pub enum AuthError {
    /// A file could not be read or written, or a directory not created.
    IoFailure,
    /// An outbound request failed at the connection or transport level.
    NetworkFailure,
    /// The provider answered with a non-success HTTP status; the status
    /// and the response body are carried verbatim.
    ApiRejected { status: u16, body: String },
    /// The provider's JSON response did not have the expected shape.
    MalformedResponse,
    /// The redirect callback carried no authorization code; the
    /// provider's error text is carried when one was sent.
    CallbackRejected { detail: Option<String> },
    /// The redirect callback never arrived within the allowed wait.
    CallbackTimeout,
    /// The local callback port could not be bound.
    ListenerBindFailure,
}

} // verus!
