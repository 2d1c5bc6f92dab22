//! Input injection errors.

use vstd::prelude::*;
use vstd::string::*;

use crate::text::owned;

verus! {

/// Errors of input injection.
#[derive(Debug)]
pub enum InputError {
    /// No backend for this platform.
    UnsupportedPlatform,
    /// System permission denied (macOS Accessibility).
    PermissionDenied,
    /// Invalid configuration.
    InvalidConfig(String),
    /// Unknown key code.
    UnknownKey(String),
    /// Native API failure.
    Native(String),
}

/// The description of `e`.
pub open spec fn input_error_text(e: InputError) -> Seq<char> {
    match e {
        InputError::UnsupportedPlatform => "input injection unsupported on this platform"@,
        InputError::PermissionDenied => "accessibility permission denied"@,
        InputError::InvalidConfig(s) => "invalid inject config: "@ + s@,
        InputError::UnknownKey(s) => "unknown key code: "@ + s@,
        InputError::Native(s) => "native input error: "@ + s@,
    }
}

impl InputError {
    /// Human-readable description of the error.
    pub fn to_string(&self) -> (r: String)
        ensures
            r@ == input_error_text(*self),
    {
        match self {
            InputError::UnsupportedPlatform => owned("input injection unsupported on this platform"),
            InputError::PermissionDenied => owned("accessibility permission denied"),
            InputError::InvalidConfig(s) => owned("invalid inject config: ").concat(s.as_str()),
            InputError::UnknownKey(s) => owned("unknown key code: ").concat(s.as_str()),
            InputError::Native(s) => owned("native input error: ").concat(s.as_str()),
        }
    }
}

} // verus!
