//! Product version and observability extension points.

use vstd::prelude::*;

verus! {

/// Product version, aligned on the workspace.
pub const VERSION: &'static str = "0.1.0";

/// Extension point for a future OpenTelemetry integration; it does nothing yet.
pub fn init_opentelemetry_placeholder() {
}

} // verus!
