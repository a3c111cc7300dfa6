//! The failure taxonomy of the library.
//!
//! Every operation of the authenticated client returns one of these errors.
//! The contracts of the client pin down, for each shape of transport
//! behaviour, exactly which variant comes back.

use vstd::prelude::*;
use vstd::string::StringExecFns;

verus! {

/// Why an operation ended in an authentication failure.
#[derive(Debug, Clone, PartialEq, Eq, Structural)]
pub enum AuthReason {
    /// The credential provider had no entry for the client's host; no login
    /// request was sent.
    CredentialsNotFound,
    /// The login endpoint answered with a failure status.
    LoginFailed { status: u16 },
    /// The request replayed after a successful login was rejected with 401
    /// again; no further attempt is made.
    RetryUnauthorized,
}

/// The mathematical value of a [`RouterError`]: the same variants, with every
/// string replaced by its character sequence.
pub enum ErrorView {
    Transport { message: Seq<char> },
    Decoding,
    Authentication { reason: AuthReason },
    UnexpectedStatus { status: u16 },
    InternalInvariant,
}

/// An error surfaced by an operation of the authenticated client.
#[derive(Debug)]
pub enum RouterError {
    /// The transport could not complete an exchange (connection, TLS or
    /// timeout failure).  Never retried.
    Transport { message: String },
    /// A response body did not decode as the expected listing shape.
    Decoding,
    /// The single automatic re-authentication could not rescue the call.
    Authentication { reason: AuthReason },
    /// A response carried a failure status other than 401; surfaced at once,
    /// without a login attempt.
    UnexpectedStatus { status: u16 },
    /// A request value could not be duplicated for the replay.  The client
    /// builds only duplicable requests, so no operation of this crate
    /// returns it; the variant stands for completeness of the taxonomy.
    InternalInvariant,
}

impl View for RouterError {
    type V = ErrorView;

    open spec fn view(&self) -> ErrorView {
        match self {
            RouterError::Transport { message } => ErrorView::Transport { message: message@ },
            RouterError::Decoding => ErrorView::Decoding,
            RouterError::Authentication { reason } => ErrorView::Authentication {
                reason: *reason,
            },
            RouterError::UnexpectedStatus { status } => ErrorView::UnexpectedStatus {
                status: *status,
            },
            RouterError::InternalInvariant => ErrorView::InternalInvariant,
        }
    }
}

impl RouterError {
    /// A short human-readable description, for callers that print errors.
    pub fn describe(&self) -> String {
        match self {
            RouterError::Transport { message } => {
                let mut s = String::new();
                s.append("transport failure: ");
                s.append(message.as_str());
                s
            },
            RouterError::Decoding => String::from_str("response body did not decode"),
            RouterError::Authentication { reason } => match reason {
                AuthReason::CredentialsNotFound => {
                    String::from_str("no credentials configured for this host")
                },
                AuthReason::LoginFailed { status: _ } => {
                    String::from_str("login was rejected by the router")
                },
                AuthReason::RetryUnauthorized => {
                    String::from_str("still unauthorized after logging in again")
                },
            },
            RouterError::UnexpectedStatus { status: _ } => {
                String::from_str("unexpected response status")
            },
            RouterError::InternalInvariant => {
                String::from_str("internal invariant violated")
            },
        }
    }
}

} // verus!
