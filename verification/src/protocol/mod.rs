//! Protocol messages, identifiers, validation and wire framing.

pub mod error;
pub mod ids;
pub mod messages;
pub mod validate;
pub mod codec;

use vstd::prelude::*;

verus! {

/// The workspace version.
pub fn crate_version() -> (r: &'static str)
    ensures
        r@ == crate::shared::VERSION@,
{
    crate::shared::VERSION
}

} // verus!
