//! Screen capture: configuration, frames, errors, the computations of the
//! native backends, and the capturer of platforms without a native backend.

pub mod error;
pub mod native;
pub mod stub;
pub mod types;

use vstd::prelude::*;

verus! {

/// The workspace version.
pub fn crate_version() -> (r: &'static str)
    ensures
        r@ == crate::shared::VERSION@,
{
    crate::shared::VERSION
}

} // verus!
