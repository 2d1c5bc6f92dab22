//! Errors of the Teleportal protocol.

use vstd::prelude::*;
use vstd::string::*;

use crate::text::{decimal_string, decimal_text, owned};

verus! {

/// Serialization, framing or validation errors.
#[derive(Debug, Clone, PartialEq, Eq)]
pub enum ProtocolError {
    /// Malformed identifier or session code.
    InvalidIdentifier(String),
    /// Message rejected by the validation rules.
    Validation(String),
    /// Frame larger than the limits allow.
    FrameTooLarge {
        /// Observed size.
        size: usize,
        /// Allowed limit.
        max: usize,
    },
    /// Buffer too short to hold the header or the body.
    TruncatedFrame,
    /// MessagePack / serde failure.
    Codec(String),
}

/// `t` is the description of `e`.
pub open spec fn describes(e: ProtocolError, t: Seq<char>) -> bool {
    match e {
        ProtocolError::InvalidIdentifier(s) => t == "invalid identifier: "@ + s@,
        ProtocolError::Validation(s) => t == "validation failed: "@ + s@,
        ProtocolError::FrameTooLarge { size, max } => t == "frame too large: "@ + decimal_text(
            size as nat,
        ) + " bytes (max "@ + decimal_text(max as nat) + ")"@,
        ProtocolError::TruncatedFrame => t == "truncated frame"@,
        ProtocolError::Codec(s) => t == "codec error: "@ + s@,
    }
}

impl ProtocolError {
    /// Human-readable description of the error.
    pub fn to_string(&self) -> (r: String)
        ensures
            describes(*self, r@),
    {
        match self {
            ProtocolError::InvalidIdentifier(s) => owned("invalid identifier: ").concat(s.as_str()),
            ProtocolError::Validation(s) => owned("validation failed: ").concat(s.as_str()),
            ProtocolError::FrameTooLarge { size, max } => owned("frame too large: ").concat(
                decimal_string(*size as u64).as_str(),
            ).concat(" bytes (max ").concat(decimal_string(*max as u64).as_str()).concat(")"),
            ProtocolError::TruncatedFrame => owned("truncated frame"),
            ProtocolError::Codec(s) => owned("codec error: ").concat(s.as_str()),
        }
    }
}

} // verus!
