//! Transport errors, and how a WebSocket client treats each incoming frame.

use vstd::prelude::*;
use vstd::string::*;

use crate::protocol::error::{describes, ProtocolError};
use crate::text::owned;

verus! {

/// Errors of sending or receiving on a connection.
#[derive(Debug, Clone, PartialEq, Eq)]
pub enum TransportError {
    /// Connection closed.
    Closed,
    /// I/O or internal channel failure.
    Io(String),
    /// Codec or protocol failure.
    Protocol(ProtocolError),
}

/// `t` is the description of `e` (a protocol error is described as itself).
pub open spec fn transport_describes(e: TransportError, t: Seq<char>) -> bool {
    match e {
        TransportError::Closed => t == "connection closed"@,
        TransportError::Io(s) => t == "transport I/O: "@ + s@,
        TransportError::Protocol(p) => describes(p, t),
    }
}

impl TransportError {
    /// Human-readable description of the error.
    pub fn to_string(&self) -> (r: String)
        ensures
            transport_describes(*self, r@),
    {
        match self {
            TransportError::Closed => owned("connection closed"),
            TransportError::Io(s) => owned("transport I/O: ").concat(s.as_str()),
            TransportError::Protocol(p) => p.to_string(),
        }
    }

    /// Wraps a protocol error.
    pub fn from_protocol(e: ProtocolError) -> (r: Self)
        ensures
            r == TransportError::Protocol(e),
    {
        TransportError::Protocol(e)
    }
}

/// A failure reported by the WebSocket library, by kind.
#[derive(Debug, Clone, PartialEq, Eq)]
pub enum WsFailure {
    /// The connection was closed normally.
    ConnectionClosed,
    /// The connection had already been closed.
    AlreadyClosed,
    /// Any other failure, with its description.
    Other(String),
}

/// Maps a WebSocket failure: a closed connection is [`TransportError::Closed`],
/// anything else an I/O error carrying its description.
pub fn map_ws_error(err: WsFailure) -> (r: TransportError)
    ensures
        (err is ConnectionClosed || err is AlreadyClosed) ==> r == TransportError::Closed,
        err matches WsFailure::Other(s) ==> r == TransportError::Io(s),
{
    match err {
        WsFailure::ConnectionClosed | WsFailure::AlreadyClosed => TransportError::Closed,
        WsFailure::Other(s) => TransportError::Io(s),
    }
}

/// What the WebSocket stream yielded.
#[derive(Debug, Clone, PartialEq, Eq)]
pub enum WsEvent {
    /// The stream ended.
    End,
    /// The stream reported a failure.
    Failed(WsFailure),
    /// A binary message.
    Binary(Vec<u8>),
    /// A text message.
    Text(String),
    /// A ping, with its payload.
    Ping(Vec<u8>),
    /// A pong.
    Pong,
    /// A raw frame.
    Frame,
    /// A close message.
    Close,
}

/// What a receiving client does with what the stream yielded.
#[derive(Debug, Clone, PartialEq, Eq)]
pub enum RecvStep {
    /// Hand the payload over as the next protocol frame.
    Deliver(Vec<u8>),
    /// Answer with a pong carrying this payload, then keep reading.
    Pong(Vec<u8>),
    /// Keep reading.
    Skip,
    /// Stop with this error; `drop_stream` says whether the stream is released.
    Stop { error: TransportError, drop_stream: bool },
}

/// Text of the error on an unexpected text message.
pub open spec fn unexpected_text() -> Seq<char> {
    "unexpected text WebSocket frame"@
}

/// Decides what to do with one item of the stream: binary messages are frames,
/// pings are answered, pongs and raw frames skipped, a text message is an I/O
/// error, a close message or the end of the stream closes the connection.
pub fn recv_step(ev: WsEvent) -> (r: RecvStep)
    ensures
        ev is End ==> r == (RecvStep::Stop { error: TransportError::Closed, drop_stream: false }),
        ev matches WsEvent::Failed(f) ==> (r matches RecvStep::Stop { error, drop_stream } && error
            == map_ws_error_spec(f) && !drop_stream),
        ev matches WsEvent::Binary(d) ==> r == RecvStep::Deliver(d),
        ev matches WsEvent::Ping(p) ==> r == RecvStep::Pong(p),
        (ev is Pong || ev is Frame) ==> r is Skip,
        ev is Text ==> (r matches RecvStep::Stop { error, drop_stream } && !drop_stream && (
        error matches TransportError::Io(s) && s@ == unexpected_text())),
        ev is Close ==> r == (RecvStep::Stop { error: TransportError::Closed, drop_stream: true }),
{
    match ev {
        WsEvent::End => RecvStep::Stop { error: TransportError::Closed, drop_stream: false },
        WsEvent::Failed(f) => RecvStep::Stop { error: map_ws_error(f), drop_stream: false },
        WsEvent::Binary(d) => RecvStep::Deliver(d),
        WsEvent::Ping(p) => RecvStep::Pong(p),
        WsEvent::Pong | WsEvent::Frame => RecvStep::Skip,
        WsEvent::Text(_) => RecvStep::Stop {
            error: TransportError::Io(owned("unexpected text WebSocket frame")),
            drop_stream: false,
        },
        WsEvent::Close => RecvStep::Stop { error: TransportError::Closed, drop_stream: true },
    }
}

/// The error that [`map_ws_error`] gives.
pub open spec fn map_ws_error_spec(f: WsFailure) -> TransportError {
    match f {
        WsFailure::ConnectionClosed | WsFailure::AlreadyClosed => TransportError::Closed,
        WsFailure::Other(s) => TransportError::Io(s),
    }
}

/// The workspace version.
pub fn crate_version() -> (r: &'static str)
    ensures
        r@ == crate::shared::VERSION@,
{
    crate::shared::VERSION
}

} // verus!
