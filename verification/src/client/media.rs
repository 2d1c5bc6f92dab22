//! Values handed to the user interface for video, and the small decisions
//! about displays and time that the session loop relies on.

use vstd::prelude::*;

use base64::Engine;

use crate::clock::duration_millis;
use crate::input::types::InjectConfig;

verus! {

/// The character of a 6-bit value in the standard base64 alphabet
/// (`A`-`Z`, `a`-`z`, `0`-`9`, `+`, `/`).
pub open spec fn b64_char(v: u8) -> char {
    if v < 26 {
        (65 + v) as char
    } else if v < 52 {
        (71 + v) as char
    } else if v < 62 {
        (v - 4) as char
    } else if v == 62 {
        '+'
    } else {
        '/'
    }
}

/// The standard base64 text (RFC 4648 alphabet, padded with `=`) of `bytes`:
/// each group of three bytes gives four characters, and a last group of one
/// or two bytes gives two or three characters and the padding.
pub open spec fn base64_text(bytes: Seq<u8>) -> Seq<char>
    decreases bytes.len(),
{
    if bytes.len() == 0 {
        Seq::empty()
    } else if bytes.len() == 1 {
        seq![b64_char(bytes[0] >> 2u8), b64_char((bytes[0] & 3u8) << 4u8), '=', '=']
    } else if bytes.len() == 2 {
        seq![
            b64_char(bytes[0] >> 2u8),
            b64_char(((bytes[0] & 3u8) << 4u8) | (bytes[1] >> 4u8)),
            b64_char((bytes[1] & 15u8) << 2u8),
            '=',
        ]
    } else {
        seq![
            b64_char(bytes[0] >> 2u8),
            b64_char(((bytes[0] & 3u8) << 4u8) | (bytes[1] >> 4u8)),
            b64_char(((bytes[1] & 15u8) << 2u8) | (bytes[2] >> 6u8)),
            b64_char(bytes[2] & 63u8),
        ] + base64_text(bytes.skip(3))
    }
}

/// Calls `base64::engine::general_purpose::STANDARD.encode(data)`: the
/// standard alphabet with padding, which [`base64_text`] states.
#[verifier::external_body]
fn base64_standard(data: &[u8]) -> (r: String)
    ensures
        r@ == base64_text(data@),
{
    base64::engine::general_purpose::STANDARD.encode(data)
}

/// An RGBA frame ready for the user interface's canvas (JSON event, pixels in
/// base64).
#[derive(Debug, Clone, PartialEq, Eq)]
pub struct VideoFrameEvent {
    /// Monotonic identifier.
    pub frame_id: u64,
    /// Width.
    pub width: u32,
    /// Height.
    pub height: u32,
    /// Unix time in ms.
    pub timestamp_ms: u64,
    /// RGBA8 pixels, base64-encoded.
    pub rgba_base64: String,
}

impl VideoFrameEvent {
    /// The event for a decoded frame.
    pub fn from_frame(frame_id: u64, width: u32, height: u32, timestamp_ms: u64, data: &[u8]) -> (r:
        Self)
        ensures
            r.frame_id == frame_id,
            r.width == width,
            r.height == height,
            r.timestamp_ms == timestamp_ms,
            r.rgba_base64@ == base64_text(data@),
    {
        VideoFrameEvent { frame_id, width, height, timestamp_ms, rgba_base64: base64_standard(data) }
    }
}

/// Size assumed when no display is known.
pub open spec fn fallback_size() -> (u32, u32) {
    (1920, 1080)
}

/// At least 1.
pub open spec fn at_least_one(v: u32) -> u32 {
    if v == 0 {
        1
    } else {
        v
    }
}

/// The size of the primary display, given the size of the first display found
/// (if any): each dimension at least 1, and 1920 x 1080 when none is known.
pub fn primary_display_size(first: Option<(u32, u32)>) -> (r: (u32, u32))
    ensures
        first matches Some((w, h)) ==> r == (at_least_one(w), at_least_one(h)),
        first is None ==> r == fallback_size(),
{
    match first {
        Some((w, h)) => (if w == 0 {
            1
        } else {
            w
        }, if h == 0 {
            1
        } else {
            h
        }),
        None => (1920, 1080),
    }
}

/// The injector's configuration for the primary display, given the size of
/// the first display found (if any); the default configuration otherwise.
pub fn injector_config(first: Option<(u32, u32)>) -> (r: InjectConfig)
    ensures
        first matches Some((w, h)) ==> r.display_width == at_least_one(w) && r.display_height
            == at_least_one(h),
        first is None ==> r.display_width == 1920 && r.display_height == 1080,
{
    let mut config = InjectConfig::default();
    if let Some((w, h)) = first {
        let (w1, h1) = primary_display_size(Some((w, h)));
        config.display_width = w1;
        config.display_height = h1;
    }
    config
}

/// `std::time::SystemTime`, held opaquely.
#[verifier::external_type_specification]
#[verifier::external_body]
pub struct ExSystemTime(std::time::SystemTime);

/// Calls `SystemTime::now()`; nothing is claimed of the result.
#[verifier::external_body]
fn system_now() -> std::time::SystemTime {
    std::time::SystemTime::now()
}

/// Calls `duration_since(UNIX_EPOCH)` on `t`, keeping the error as `None`
/// (a time before the epoch); nothing is claimed of the result.
#[verifier::external_body]
fn since_epoch(t: &std::time::SystemTime) -> Option<std::time::Duration> {
    t.duration_since(std::time::UNIX_EPOCH).ok()
}

/// Unix time in milliseconds (truncated to 64 bits), or 0 when the clock is
/// before the epoch.
pub fn unix_now_ms() -> u64 {
    match since_epoch(&system_now()) {
        Some(d) => unix_ms_of(Some(duration_millis(&d))),
        None => unix_ms_of(None),
    }
}

/// The Unix time in ms that a clock reading gives: the milliseconds truncated
/// to 64 bits, or 0 for a reading before the epoch.
pub fn unix_ms_of(reading: Option<u128>) -> (r: u64)
    ensures
        reading matches Some(ms) ==> r == ms as u64,
        reading is None ==> r == 0,
{
    match reading {
        Some(ms) => ms as u64,
        None => 0,
    }
}

} // verus!
