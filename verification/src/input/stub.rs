//! Injector of platforms without a native backend.

use vstd::prelude::*;

use crate::input::error::InputError;
use crate::input::types::InjectConfig;
use crate::protocol::messages::Message;

verus! {

/// Injector of mouse / keyboard / scroll events.
pub trait InputInjector: Sized {
    /// Starts the injector (permissions + display resolution).
    fn start(config: InjectConfig) -> Result<Self, InputError>;

    /// Injects a control message (`Mouse*` / `KeyEvent`); other messages are
    /// ignored.
    fn inject(&mut self, msg: &Message) -> Result<(), InputError>;

    /// Stops the injector.
    fn stop(self) -> Result<(), InputError>;
}

/// Injector for platforms other than Windows and macOS: every operation but
/// `stop` fails with [`InputError::UnsupportedPlatform`].
#[derive(Debug, Default)]
pub struct UnsupportedInjector;

/// The native injector of this platform.
pub type PlatformInjector = UnsupportedInjector;

impl InputInjector for UnsupportedInjector {
    fn start(config: InjectConfig) -> (r: Result<Self, InputError>)
        ensures
            r matches Err(e) && e is UnsupportedPlatform,
    {
        Err(InputError::UnsupportedPlatform)
    }

    fn inject(&mut self, msg: &Message) -> (r: Result<(), InputError>)
        ensures
            r matches Err(e) && e is UnsupportedPlatform,
    {
        Err(InputError::UnsupportedPlatform)
    }

    fn stop(self) -> (r: Result<(), InputError>)
        ensures
            r is Ok,
    {
        Ok(())
    }
}

} // verus!
