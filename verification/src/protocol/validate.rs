//! Validation rules of the protocol messages.

use vstd::prelude::*;
use vstd::string::*;

use crate::protocol::error::ProtocolError;
use crate::protocol::messages::{Message, VideoCodec, PROTOCOL_VERSION};
use crate::text::{decimal_string, decimal_text, owned};

verus! {

/// Largest wire frame (header + payload): 4 MiB.
pub const MAX_FRAME_BYTES: usize = 4 * 1024 * 1024;

/// Largest video payload alone.
pub const MAX_VIDEO_PAYLOAD: usize = MAX_FRAME_BYTES - 256;

/// The `f32` whose bit pattern is `b` lies in `[0.0, 1.0]` (and is therefore
/// finite): `+0.0` up to `1.0` are the patterns `0..=0x3f80_0000`, and `-0.0`,
/// which compares equal to `0.0`, is `0x8000_0000`. NaNs and infinities fall
/// outside both.
pub open spec fn unit_interval_bits(b: u32) -> bool {
    b <= 0x3f80_0000u32 || b == 0x8000_0000u32
}

/// Both normalized coordinates are finite and in `[0, 1]`.
pub open spec fn coords_ok(x: u32, y: u32) -> bool {
    unit_interval_bits(x) && unit_interval_bits(y)
}

/// Exec form of [`coords_ok`].
pub fn coords_in_range(x: u32, y: u32) -> (r: bool)
    ensures
        r == coords_ok(x, y),
{
    (x <= 0x3f80_0000u32 || x == 0x8000_0000u32) && (y <= 0x3f80_0000u32 || y == 0x8000_0000u32)
}

/// The message obeys every validation rule.
pub open spec fn message_is_valid(m: Message) -> bool {
    match m {
        Message::Hello { protocol_version, .. } => protocol_version == PROTOCOL_VERSION,
        Message::JoinRejected { reason } => reason@.len() > 0,
        Message::Error { message, .. } => message@.len() > 0,
        Message::CursorMove { x, y, .. } => coords_ok(x, y),
        Message::MouseMove { x, y, .. } => coords_ok(x, y),
        Message::MouseButton { x, y, .. } => coords_ok(x, y),
        Message::MouseScroll { x, y, .. } => coords_ok(x, y),
        Message::KeyEvent { key, .. } => key@.len() > 0,
        Message::VideoFrame { width, height, codec, data, .. } => {
            &&& codec == VideoCodec::H264
            &&& width != 0
            &&& height != 0
            &&& data@.len() <= MAX_VIDEO_PAYLOAD
        },
        _ => true,
    }
}

/// An H264 frame with non-zero dimensions whose payload exceeds
/// [`MAX_VIDEO_PAYLOAD`]: the one rule whose violation is reported as
/// [`ProtocolError::FrameTooLarge`].
pub open spec fn video_payload_too_large(m: Message) -> bool {
    match m {
        Message::VideoFrame { width, height, codec, data, .. } => {
            &&& codec == VideoCodec::H264
            &&& width != 0
            &&& height != 0
            &&& data@.len() > MAX_VIDEO_PAYLOAD
        },
        _ => false,
    }
}

/// `t` is the text of the rule that `m` breaks.
pub open spec fn validation_text(m: Message, t: Seq<char>) -> bool {
    match m {
        Message::Hello { protocol_version, .. } => t == "unsupported protocol_version "@
            + decimal_text(protocol_version as nat) + ", expected "@ + decimal_text(
            PROTOCOL_VERSION as nat,
        ),
        Message::JoinRejected { .. } => t == "reason/message must not be empty"@,
        Message::Error { .. } => t == "reason/message must not be empty"@,
        Message::CursorMove { .. } => t == "coordinates out of range"@,
        Message::MouseMove { .. } => t == "coordinates out of range"@,
        Message::MouseButton { .. } => t == "coordinates out of range"@,
        Message::MouseScroll { .. } => t == "coordinates out of range"@,
        Message::KeyEvent { .. } => t == "key must not be empty"@,
        Message::VideoFrame { codec, .. } => if codec != VideoCodec::H264 {
            t == "MVP accepts H264 only"@
        } else {
            t == "video frame dimensions must be non-zero"@
        },
        _ => false,
    }
}

/// The outcome of [`validate_message`] on `m`, with the text of a
/// [`ProtocolError::Validation`] as [`validation_text`] gives it.
pub open spec fn validation_result_matches(m: Message, r: Result<(), ProtocolError>) -> bool {
    match r {
        Ok(()) => message_is_valid(m),
        Err(ProtocolError::FrameTooLarge { size, max }) => {
            &&& video_payload_too_large(m)
            &&& m matches Message::VideoFrame { data, .. } && size == data@.len()
            &&& max == MAX_VIDEO_PAYLOAD
        },
        Err(ProtocolError::Validation(t)) => !message_is_valid(m) && !video_payload_too_large(m)
            && validation_text(m, t@),
        Err(_) => false,
    }
}

/// Validates a message against the rules above.
pub fn validate_message(message: &Message) -> (r: Result<(), ProtocolError>)
    ensures
        validation_result_matches(*message, r),
        r is Ok <==> message_is_valid(*message),
{
    match message {
        Message::Hello { protocol_version, .. } => {
            if *protocol_version != PROTOCOL_VERSION {
                let text = owned("unsupported protocol_version ").concat(
                    decimal_string(*protocol_version as u64).as_str(),
                ).concat(", expected ").concat(decimal_string(PROTOCOL_VERSION as u64).as_str());
                return Err(ProtocolError::Validation(text));
            }
        },
        Message::JoinRejected { reason } => {
            if reason.as_str().is_empty() {
                return Err(ProtocolError::Validation(owned("reason/message must not be empty")));
            }
        },
        Message::Error { message: reason, .. } => {
            if reason.as_str().is_empty() {
                return Err(ProtocolError::Validation(owned("reason/message must not be empty")));
            }
        },
        Message::CursorMove { x, y, .. }
        | Message::MouseMove { x, y, .. }
        | Message::MouseButton { x, y, .. }
        | Message::MouseScroll { x, y, .. } => {
            if !coords_in_range(*x, *y) {
                return Err(ProtocolError::Validation(owned("coordinates out of range")));
            }
        },
        Message::KeyEvent { key, .. } => {
            if key.as_str().is_empty() {
                return Err(ProtocolError::Validation(owned("key must not be empty")));
            }
        },
        Message::VideoFrame { width, height, codec, data, .. } => {
            match codec {
                VideoCodec::H264 => {},
                VideoCodec::H265 => {
                    return Err(ProtocolError::Validation(owned("MVP accepts H264 only")));
                },
            }
            if *width == 0 || *height == 0 {
                return Err(
                    ProtocolError::Validation(owned("video frame dimensions must be non-zero")),
                );
            }
            if data.len() > MAX_VIDEO_PAYLOAD {
                return Err(ProtocolError::FrameTooLarge { size: data.len(), max: MAX_VIDEO_PAYLOAD });
            }
        },
        Message::CreateSession
        | Message::SessionCreated { .. }
        | Message::JoinSession { .. }
        | Message::JoinAccepted { .. }
        | Message::LeaveSession
        | Message::PeerJoined { .. }
        | Message::PeerLeft { .. }
        | Message::Heartbeat { .. }
        | Message::SessionExpired => {},
    }
    Ok(())
}

/// The validation rules: `Hello` must carry protocol version 1; a rejection
/// reason, an error text and a key name must not be empty; every pointer
/// position (cursor and mouse) must lie in `[0, 1]` on both axes; a video
/// frame must be H264, with non-zero dimensions and a payload of at most
/// 4 MiB less 256 bytes; session control, peer notices and heartbeats are
/// always valid.
pub proof fn lemma_validation_rules(m: Message)
    ensures
        m matches Message::Hello { protocol_version, .. } ==> (message_is_valid(m) <==> protocol_version
            == 1),
        m matches Message::JoinRejected { reason } ==> (message_is_valid(m) <==> reason@.len() > 0),
        m matches Message::Error { message, .. } ==> (message_is_valid(m) <==> message@.len() > 0),
        m matches Message::KeyEvent { key, .. } ==> (message_is_valid(m) <==> key@.len() > 0),
        m matches Message::CursorMove { x, y, .. } ==> (message_is_valid(m) <==> unit_interval_bits(x)
            && unit_interval_bits(y)),
        m matches Message::MouseMove { x, y, .. } ==> (message_is_valid(m) <==> unit_interval_bits(x)
            && unit_interval_bits(y)),
        m matches Message::MouseButton { x, y, .. } ==> (message_is_valid(m) <==> unit_interval_bits(x)
            && unit_interval_bits(y)),
        m matches Message::MouseScroll { x, y, .. } ==> (message_is_valid(m) <==> unit_interval_bits(x)
            && unit_interval_bits(y)),
        m matches Message::VideoFrame { width, height, codec, data, .. } ==> (message_is_valid(m) <==> (
        codec == VideoCodec::H264 && width > 0 && height > 0 && data@.len() <= 4 * 1024 * 1024 - 256)),
        (m is CreateSession || m is SessionCreated || m is JoinSession || m is JoinAccepted
            || m is LeaveSession || m is PeerJoined || m is PeerLeft || m is Heartbeat
            || m is SessionExpired) ==> message_is_valid(m),
{
}

} // verus!
