//! Remote control: key code mapping, injection configuration, errors, and the
//! injector of platforms without a native backend.

pub mod error;
pub mod mapping;
pub mod stub;
pub mod types;

use vstd::prelude::*;

verus! {

/// The workspace version.
pub fn crate_version() -> (r: &'static str)
    ensures
        r@ == crate::shared::VERSION@,
{
    crate::shared::VERSION
}

} // verus!
