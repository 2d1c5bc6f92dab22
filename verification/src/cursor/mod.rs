//! Collaborative cursors: send throttling, remote sample tracking, and the
//! integer parts of normalization.

pub mod error;
pub mod throttle;
pub mod tracker;
pub mod types;

use vstd::prelude::*;

verus! {

/// The workspace version.
pub fn crate_version() -> (r: &'static str)
    ensures
        r@ == crate::shared::VERSION@,
{
    crate::shared::VERSION
}

} // verus!
