//! Capturer of platforms without a native backend.

use vstd::prelude::*;

use crate::capture::error::CaptureError;
use crate::capture::types::{CaptureConfig, DisplayInfo, Frame};

verus! {

/// Producer of screen frames.
pub trait Capturer: Sized {
    /// Lists the available displays.
    fn displays() -> Result<Vec<DisplayInfo>, CaptureError>;

    /// Starts capturing according to `config`.
    fn start(config: CaptureConfig) -> Result<Self, CaptureError>;

    /// Tries to acquire a frame (`None` when nothing changed).
    fn grab(&mut self) -> Result<Option<Frame>, CaptureError>;

    /// Stops capturing and releases resources.
    fn stop(self) -> Result<(), CaptureError>;
}

/// Capturer for platforms other than Windows and macOS: every operation but
/// `stop` fails with [`CaptureError::UnsupportedPlatform`].
#[derive(Debug, Default)]
pub struct UnsupportedCapturer;

/// The native capturer of this platform.
pub type PlatformCapturer = UnsupportedCapturer;

impl Capturer for UnsupportedCapturer {
    fn displays() -> (r: Result<Vec<DisplayInfo>, CaptureError>)
        ensures
            r matches Err(e) && e is UnsupportedPlatform,
    {
        Err(CaptureError::UnsupportedPlatform)
    }

    fn start(config: CaptureConfig) -> (r: Result<Self, CaptureError>)
        ensures
            r matches Err(e) && e is UnsupportedPlatform,
    {
        Err(CaptureError::UnsupportedPlatform)
    }

    fn grab(&mut self) -> (r: Result<Option<Frame>, CaptureError>)
        ensures
            r matches Err(e) && e is UnsupportedPlatform,
    {
        Err(CaptureError::UnsupportedPlatform)
    }

    fn stop(self) -> (r: Result<(), CaptureError>)
        ensures
            r is Ok,
    {
        Ok(())
    }
}

} // verus!
