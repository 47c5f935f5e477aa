//! Errors of applying authentication to an outbound request, and how they
//! reach the transport.

use vstd::prelude::*;

use crate::text::concat_strs;

verus! {

/// Error returned while applying authentication to an outbound request.
pub enum AuthError {
    /// The request could not be built with its credentials.
    Build(String),
    /// A passing failure, such as a token refresh that failed on the network.
    Transient(String),
}

/// The transport failures that an authentication error becomes.
pub enum TransportError {
    /// The request could not be built.
    Build(String),
    /// The network failed.
    Network(String),
}

/// The text an authentication error displays.
pub open spec fn auth_error_text(e: AuthError) -> Seq<char> {
    match e {
        AuthError::Build(m) => "request auth build error: "@ + m@,
        AuthError::Transient(m) => "transient auth error: "@ + m@,
    }
}

impl AuthError {
    /// The text this error displays.
    pub fn message(&self) -> (m: String)
        ensures
            m@ == auth_error_text(*self),
    {
        proof {
            reveal_strlit("request auth build error: ");
            reveal_strlit("transient auth error: ");
        }
        match self {
            AuthError::Build(message) => concat_strs("request auth build error: ", message.as_str()),
            AuthError::Transient(message) => concat_strs("transient auth error: ", message.as_str()),
        }
    }
}

/// The transport failure of an authentication error: a build failure stays a
/// build failure, a transient one is a network failure; the message is kept.
pub open spec fn transport_error_of(error: AuthError) -> TransportError {
    match error {
        AuthError::Build(m) => TransportError::Build(m),
        AuthError::Transient(m) => TransportError::Network(m),
    }
}

impl From<AuthError> for TransportError {
    fn from(error: AuthError) -> (t: Self) {
        match error {
            AuthError::Build(message) => TransportError::Build(message),
            AuthError::Transient(message) => TransportError::Network(message),
        }
    }
}

impl vstd::std_specs::convert::FromSpecImpl<AuthError> for TransportError {
    open spec fn obeys_from_spec() -> bool {
        true
    }

    open spec fn from_spec(v: AuthError) -> TransportError {
        transport_error_of(v)
    }
}

} // verus!
