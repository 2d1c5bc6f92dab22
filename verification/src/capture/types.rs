//! Common capture types.

use bytes::Bytes;
use vstd::prelude::*;

use crate::capture::error::CaptureError;
use crate::text::owned;

verus! {

/// `bytes::Bytes`, an immutable shared byte buffer.
#[verifier::external_type_specification]
#[verifier::external_body]
pub struct ExBytes(Bytes);

/// The bytes a `Bytes` buffer holds.
pub uninterp spec fn bytes_content(b: Bytes) -> Seq<u8>;

/// Calls `Bytes::len`, which returns the number of bytes in the buffer.
#[verifier::external_body]
fn bytes_len(b: &Bytes) -> (n: usize)
    ensures
        n == bytes_content(*b).len(),
{
    b.len()
}

/// `Bytes::clone` returns a handle on the same bytes (the buffer is shared,
/// not copied); needed by the `Clone` of [`Frame`].
pub assume_specification[ <Bytes as Clone>::clone ](b: &Bytes) -> (r: Bytes)
    ensures
        bytes_content(r) == bytes_content(*b),
;

/// `a * b`, or `usize::MAX` when the product overflows.
fn saturating_mul_usize(a: usize, b: usize) -> (r: usize)
    ensures
        r == saturating_mul(a as nat, b as nat),
{
    match a.checked_mul(b) {
        Some(v) => v,
        None => usize::MAX,
    }
}

/// Opaque display identifier.
#[derive(Debug, Clone, Copy, PartialEq, Eq, Hash, Structural)]
pub struct DisplayId(pub u32);

/// A capturable display.
#[derive(Debug, Clone, PartialEq, Eq)]
pub struct DisplayInfo {
    /// Identifier, stable for a capture session.
    pub id: DisplayId,
    /// Enumeration index (0 = primary).
    pub index: usize,
    /// Readable name.
    pub name: String,
    /// Width in pixels.
    pub width: u32,
    /// Height in pixels.
    pub height: u32,
}

/// Pixel format of delivered frames.
#[derive(Debug, Clone, Copy, PartialEq, Eq, Hash, Structural)]
pub enum PixelFormat {
    /// 8 bits per channel, in order B, G, R, A.
    Bgra8,
}

/// Capture start configuration.
#[derive(Debug, Clone, PartialEq, Eq, Structural)]
pub struct CaptureConfig {
    /// Display index (one at a time).
    pub display_index: usize,
    /// Acquisition rate ceiling.
    pub max_fps: u32,
}

impl Default for CaptureConfig {
    fn default() -> (r: Self)
        ensures
            r.display_index == 0,
            r.max_fps == 30,
    {
        CaptureConfig { display_index: 0, max_fps: 30 }
    }
}

/// Frame timeout in ms derived from a frame-rate ceiling: one frame period,
/// at least 1 ms.
pub open spec fn frame_timeout_of(max_fps: u32) -> nat {
    let fps: nat = if max_fps == 0 {
        1
    } else {
        max_fps as nat
    };
    if 1000nat / fps >= 1 {
        1000nat / fps
    } else {
        1
    }
}

impl CaptureConfig {
    /// Checks the configuration: `max_fps` must be at least 1.
    pub fn validate(&self) -> (r: Result<(), CaptureError>)
        ensures
            r is Ok <==> self.max_fps != 0,
            r matches Err(e) ==> e is InvalidConfig,
    {
        if self.max_fps == 0 {
            return Err(CaptureError::InvalidConfig(owned("max_fps must be >= 1")));
        }
        Ok(())
    }

    /// Timeout for acquiring the next frame, derived from `max_fps`.
    pub fn frame_timeout_ms(&self) -> (r: u32)
        ensures
            r == frame_timeout_of(self.max_fps),
            r >= 1,
    {
        let fps = if self.max_fps == 0 {
            1
        } else {
            self.max_fps
        };
        let t = 1000 / fps;
        if t >= 1 {
            t
        } else {
            1
        }
    }
}

/// A captured frame (BGRA in CPU memory).
#[derive(Debug, Clone)]
pub struct Frame {
    /// Width.
    pub width: u32,
    /// Height.
    pub height: u32,
    /// Stride in bytes (may exceed `width * 4`).
    pub stride: usize,
    /// Format.
    pub format: PixelFormat,
    /// Unix time in ms.
    pub timestamp_ms: u64,
    /// Source display.
    pub display_id: DisplayId,
    /// BGRA pixels.
    pub data: Bytes,
}

/// `a * b`, saturated at `usize::MAX`.
pub open spec fn saturating_mul(a: nat, b: nat) -> nat {
    if a * b > usize::MAX {
        usize::MAX as nat
    } else {
        a * b
    }
}

impl Frame {
    /// Minimum number of bytes expected: stride times height, saturated.
    pub fn expected_min_len(&self) -> (r: usize)
        ensures
            r == saturating_mul(self.stride as nat, self.height as nat),
    {
        saturating_mul_usize(self.stride, self.height as usize)
    }

    /// Basic consistency of width, height, stride and data.
    pub fn is_well_formed(&self) -> (r: bool)
        ensures
            r == (self.width > 0 && self.height > 0 && self.stride >= saturating_mul(
                self.width as nat,
                4,
            ) && bytes_content(self.data).len() >= saturating_mul(
                self.stride as nat,
                self.height as nat,
            ) && self.format == PixelFormat::Bgra8),
    {
        self.width > 0 && self.height > 0 && self.stride >= saturating_mul_usize(self.width as usize, 4)
            && bytes_len(&self.data) >= self.expected_min_len() && self.format
            == PixelFormat::Bgra8
    }
}

} // verus!
