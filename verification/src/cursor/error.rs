//! Cursor synchronization errors.

use vstd::prelude::*;
use vstd::string::*;

use crate::text::owned;

verus! {

/// Errors of cursor synchronization.
#[derive(Debug)]
pub enum CursorError {
    /// OS polling unsupported on this platform.
    UnsupportedPlatform,
    /// Invalid display dimensions.
    InvalidDisplay(String),
    /// Invalid configuration.
    InvalidConfig(String),
    /// Native API failure.
    Native(String),
}

impl CursorError {
    /// Human-readable description of the error.
    pub fn to_string(&self) -> (r: String)
        ensures
            self is UnsupportedPlatform ==> r@ == "cursor poll unsupported on this platform"@,
            self matches CursorError::InvalidDisplay(s) ==> r@ == "invalid display size: "@ + s@,
            self matches CursorError::InvalidConfig(s) ==> r@ == "invalid cursor sync config: "@
                + s@,
            self matches CursorError::Native(s) ==> r@ == "native cursor poll failed: "@ + s@,
    {
        match self {
            CursorError::UnsupportedPlatform => owned("cursor poll unsupported on this platform"),
            CursorError::InvalidDisplay(s) => owned("invalid display size: ").concat(s.as_str()),
            CursorError::InvalidConfig(s) => owned("invalid cursor sync config: ").concat(s.as_str()),
            CursorError::Native(s) => owned("native cursor poll failed: ").concat(s.as_str()),
        }
    }
}

} // verus!
