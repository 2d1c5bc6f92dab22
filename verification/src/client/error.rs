//! Errors of the client session, as the user interface shows them.

use vstd::prelude::*;
use vstd::string::*;

use crate::protocol::error::{describes, ProtocolError};
use crate::text::owned;
use crate::transport::{transport_describes, TransportError};

verus! {

/// Errors surfaced to the user interface and its commands.
#[derive(Debug, Clone, PartialEq, Eq)]
pub enum SessionError {
    /// A session is already running.
    Busy,
    /// No session is running.
    NotConnected,
    /// Refusal or protocol failure.
    Protocol(String),
    /// Transport or network failure.
    Transport(String),
    /// Invalid session code.
    InvalidCode(String),
}

/// `t` is the text that the user interface shows for `e`.
pub open spec fn session_error_text(e: SessionError) -> Seq<char> {
    match e {
        SessionError::Busy => "une session est déjà en cours"@,
        SessionError::NotConnected => "aucune session active"@,
        SessionError::Protocol(s) => s@,
        SessionError::Transport(s) => "transport: "@ + s@,
        SessionError::InvalidCode(s) => "code invalide: "@ + s@,
    }
}

impl SessionError {
    /// Human-readable description of the error.
    pub fn to_string(&self) -> (r: String)
        ensures
            r@ == session_error_text(*self),
    {
        match self {
            SessionError::Busy => owned("une session est déjà en cours"),
            SessionError::NotConnected => owned("aucune session active"),
            SessionError::Protocol(s) => s.clone(),
            SessionError::Transport(s) => owned("transport: ").concat(s.as_str()),
            SessionError::InvalidCode(s) => owned("code invalide: ").concat(s.as_str()),
        }
    }

    /// A transport failure, carrying the description of `e`.
    pub fn from_transport(e: TransportError) -> (r: Self)
        ensures
            r matches SessionError::Transport(s) && transport_describes(e, s@),
    {
        SessionError::Transport(e.to_string())
    }

    /// A protocol failure, carrying the description of `e`.
    pub fn from_protocol(e: ProtocolError) -> (r: Self)
        ensures
            r matches SessionError::Protocol(s) && describes(e, s@),
    {
        SessionError::Protocol(e.to_string())
    }
}

} // verus!
