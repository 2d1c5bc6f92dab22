//! Injection configuration.

use vstd::prelude::*;

use crate::input::error::InputError;
use crate::text::owned;

verus! {

/// Injector configuration (target display).
#[derive(Debug, Clone, Copy, PartialEq, Eq, Structural)]
pub struct InjectConfig {
    /// Width of the primary display in pixels.
    pub display_width: u32,
    /// Height of the primary display in pixels.
    pub display_height: u32,
}

impl Default for InjectConfig {
    fn default() -> (r: Self)
        ensures
            r.display_width == 1920,
            r.display_height == 1080,
    {
        InjectConfig { display_width: 1920, display_height: 1080 }
    }
}

impl InjectConfig {
    /// Checks the configuration: both dimensions must be at least 1.
    pub fn validate(&self) -> (r: Result<(), InputError>)
        ensures
            r is Ok <==> (self.display_width != 0 && self.display_height != 0),
            r matches Err(e) ==> e is InvalidConfig,
    {
        if self.display_width == 0 || self.display_height == 0 {
            return Err(InputError::InvalidConfig(owned("display dimensions must be >= 1")));
        }
        Ok(())
    }
}

} // verus!
