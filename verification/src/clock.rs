//! Monotonic milliseconds for activity timestamps and rate-limit windows.

use vstd::prelude::*;

verus! {

/// `std::time::Instant`, held opaquely as a clock's origin.
#[verifier::external_type_specification]
#[verifier::external_body]
pub struct ExInstant(std::time::Instant);

/// Calls `std::time::Instant::now()`; nothing is claimed of the result.
#[verifier::external_body]
fn instant_now() -> std::time::Instant {
    std::time::Instant::now()
}

/// Calls `Instant::elapsed` on `origin`; the result depends on the time of the
/// call and nothing is claimed of it.
#[verifier::external_body]
fn instant_elapsed(origin: &std::time::Instant) -> std::time::Duration {
    origin.elapsed()
}

/// Calls `Duration::as_millis`: the whole milliseconds of the duration.
/// `Duration` is opaque here, so nothing is claimed of the result.
#[verifier::external_body]
pub(crate) fn duration_millis(d: &std::time::Duration) -> u128 {
    d.as_millis()
}

/// A monotonic clock reading milliseconds elapsed since it was created.
#[derive(Debug, Clone, Copy)]
pub struct Clock {
    origin: std::time::Instant,
}

impl Clock {
    /// Starts a clock at the current instant.
    pub fn new() -> Self {
        Clock { origin: instant_now() }
    }

    /// Milliseconds elapsed since the clock started.
    pub fn now_ms(&self) -> u64 {
        let ms = duration_millis(&instant_elapsed(&self.origin));
        ms as u64
    }
}

} // verus!
