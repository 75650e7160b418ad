//! The error taxonomy every operation reports through.

use vstd::prelude::*;

verus! {

/// Why an operation failed. The two named business-rule conflicts get their
/// own kinds; transport and decode failures wrap the underlying message; and
/// everything else is an unexpected error whose message carries the observed
/// status code.
#[derive(Debug, Clone, PartialEq, Eq)]
pub enum AIDungeonError {
    /// The registration existence check found the email already in use.
    EmailAlreadyExists,
    /// The registration completion rejected the chosen username.
    UsernameAlreadyExists,
    /// Reserved for an invalid-credentials condition; no mapped status
    /// produces it.
    InvalidPassword,
    /// The request-sending capability itself failed (connection, TLS,
    /// timeout); wraps the transport's own message.
    RequestFailed { message: String },
    /// A response body that was expected to parse as a given schema did not;
    /// wraps the decoder's own message.
    InvalidResponseFromServer { message: String },
    /// Any other unanticipated status code or internal misuse; the message
    /// includes the literal status code where one was observed.
    UnexpectedError { message: String },
}

} // verus!
