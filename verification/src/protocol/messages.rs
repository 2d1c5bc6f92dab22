//! Catalogue of the protocol messages.
//!
//! Coordinates and scroll deltas travel as `f32` on the wire. Here each one is
//! held as its IEEE-754 bit pattern (`f32::to_bits`), which represents the value
//! exactly and lets the validation rules be stated and proved on integers.

use vstd::prelude::*;

use crate::protocol::ids::{CursorId, PeerId, SessionCode, SessionId};

verus! {

/// Protocol version negotiated in [`Message::Hello`].
pub const PROTOCOL_VERSION: u16 = 1;

/// Video codec (only H264 passes validation).
#[derive(Debug, Clone, Copy, PartialEq, Eq, Hash, Structural)]
pub enum VideoCodec {
    /// H.264 / AVC.
    H264,
    /// H.265 / HEVC (planned, rejected by validation).
    H265,
}

/// Mouse button.
#[derive(Debug, Clone, Copy, PartialEq, Eq, Hash, Structural)]
pub enum MouseButton {
    /// Left button.
    Left,
    /// Right button.
    Right,
    /// Middle button.
    Middle,
}

/// Keyboard modifiers.
#[derive(Debug, Clone, Copy, PartialEq, Eq, Hash, Default, Structural)]
pub struct KeyModifiers {
    /// Shift.
    pub shift: bool,
    /// Control.
    pub ctrl: bool,
    /// Alt / Option.
    pub alt: bool,
    /// Meta / Command / Win.
    pub meta: bool,
}

/// Role of a participant.
#[derive(Debug, Clone, Copy, PartialEq, Eq, Hash, Structural)]
pub enum Role {
    /// Host: shares the screen and can be controlled.
    Host,
    /// Guest: receives the stream and can control / collaborate.
    Guest,
}

/// Protocol message (signaling, cursor, input, video).
///
/// Fields named `x`, `y`, `dx`, `dy` hold `f32` bit patterns.
#[derive(Debug, Clone, PartialEq)]
pub enum Message {
    /// Initial handshake.
    Hello {
        /// Must equal [`PROTOCOL_VERSION`].
        protocol_version: u16,
        /// Role announced by the peer.
        role: Role,
    },
    /// Session creation request (host).
    CreateSession,
    /// Session created, with its 6-digit code.
    SessionCreated {
        /// Session identifier.
        session_id: SessionId,
        /// Join code.
        code: SessionCode,
    },
    /// Join request by code.
    JoinSession {
        /// 6-digit code.
        code: SessionCode,
    },
    /// Join accepted.
    JoinAccepted {
        /// Joined session.
        session_id: SessionId,
        /// Identifier given to the peer.
        peer_id: PeerId,
        /// Effective role.
        role: Role,
    },
    /// Join refused.
    JoinRejected {
        /// Readable reason.
        reason: String,
    },
    /// Voluntary departure.
    LeaveSession,
    /// A peer joined.
    PeerJoined {
        /// Arriving peer.
        peer_id: PeerId,
        /// Its role.
        role: Role,
    },
    /// A peer left.
    PeerLeft {
        /// Departing peer.
        peer_id: PeerId,
    },
    /// Keep-alive.
    Heartbeat {
        /// Unix time in ms.
        timestamp_ms: u64,
    },
    /// Application-level protocol error.
    Error {
        /// Machine code.
        code: String,
        /// Human message.
        message: String,
    },
    /// Session expired on the relay.
    SessionExpired,
    /// Collaborative cursor position (normalized coordinates).
    CursorMove {
        /// Cursor concerned.
        cursor_id: CursorId,
        /// Normalized abscissa (`f32` bits).
        x: u32,
        /// Normalized ordinate (`f32` bits).
        y: u32,
        /// Unix time in ms.
        timestamp_ms: u64,
    },
    /// Mouse move (remote control).
    MouseMove {
        /// Normalized abscissa (`f32` bits).
        x: u32,
        /// Normalized ordinate (`f32` bits).
        y: u32,
        /// Unix time in ms.
        timestamp_ms: u64,
    },
    /// Mouse button.
    MouseButton {
        /// Button.
        button: MouseButton,
        /// `true` pressed, `false` released.
        pressed: bool,
        /// Normalized abscissa (`f32` bits).
        x: u32,
        /// Normalized ordinate (`f32` bits).
        y: u32,
        /// Unix time in ms.
        timestamp_ms: u64,
    },
    /// Wheel / scroll.
    MouseScroll {
        /// Horizontal delta (`f32` bits).
        dx: u32,
        /// Vertical delta (`f32` bits).
        dy: u32,
        /// Normalized abscissa (`f32` bits).
        x: u32,
        /// Normalized ordinate (`f32` bits).
        y: u32,
        /// Unix time in ms.
        timestamp_ms: u64,
    },
    /// Keyboard key.
    KeyEvent {
        /// Key identifier (logical name or code).
        key: String,
        /// `true` pressed, `false` released.
        pressed: bool,
        /// Modifiers.
        modifiers: KeyModifiers,
        /// Unix time in ms.
        timestamp_ms: u64,
    },
    /// Encoded video frame.
    VideoFrame {
        /// Monotonic frame identifier.
        frame_id: u64,
        /// Unix time in ms.
        timestamp_ms: u64,
        /// Width in pixels.
        width: u32,
        /// Height in pixels.
        height: u32,
        /// Codec.
        codec: VideoCodec,
        /// Encoded payload.
        data: Vec<u8>,
    },
}

/// Calls `format!` with `{:?}` on the message; the text is not stated.
#[verifier::external_body]
pub(crate) fn message_debug(m: &Message) -> String {
    format!("{m:?}")
}

} // verus!
