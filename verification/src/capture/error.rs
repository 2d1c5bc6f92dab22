//! Screen capture errors.

use vstd::prelude::*;
use vstd::string::*;

use crate::text::{decimal_string, decimal_text, owned};

verus! {

/// Errors of screen capture.
#[derive(Debug)]
pub enum CaptureError {
    /// No backend for this platform.
    UnsupportedPlatform,
    /// Display index out of range.
    DisplayNotFound(usize),
    /// No video output found.
    NoDisplays,
    /// Invalid configuration.
    InvalidConfig(String),
    /// Desktop duplication access lost (mode change, UAC, ...).
    AccessLost,
    /// Screen Recording permission denied (macOS).
    PermissionDenied,
    /// Native API failure.
    Native(String),
}

/// `t` is the description of `e`.
pub open spec fn capture_describes(e: CaptureError, t: Seq<char>) -> bool {
    match e {
        CaptureError::UnsupportedPlatform => t == "capture unsupported on this platform"@,
        CaptureError::DisplayNotFound(i) => t == "display index out of range: "@ + decimal_text(
            i as nat,
        ),
        CaptureError::NoDisplays => t == "no displays found"@,
        CaptureError::InvalidConfig(s) => t == "invalid capture config: "@ + s@,
        CaptureError::AccessLost => t == "desktop duplication access lost"@,
        CaptureError::PermissionDenied => t == "screen recording permission denied"@,
        CaptureError::Native(s) => t == "native capture error: "@ + s@,
    }
}

impl CaptureError {
    /// Human-readable description of the error.
    pub fn to_string(&self) -> (r: String)
        ensures
            capture_describes(*self, r@),
    {
        match self {
            CaptureError::UnsupportedPlatform => owned("capture unsupported on this platform"),
            CaptureError::DisplayNotFound(i) => owned("display index out of range: ").concat(
                decimal_string(*i as u64).as_str(),
            ),
            CaptureError::NoDisplays => owned("no displays found"),
            CaptureError::InvalidConfig(s) => owned("invalid capture config: ").concat(s.as_str()),
            CaptureError::AccessLost => owned("desktop duplication access lost"),
            CaptureError::PermissionDenied => owned("screen recording permission denied"),
            CaptureError::Native(s) => owned("native capture error: ").concat(s.as_str()),
        }
    }
}

} // verus!
