//! Synchronization configuration, and the integer part of placing a point on
//! a display.

use vstd::prelude::*;

use crate::cursor::error::CursorError;
use crate::text::owned;

verus! {

/// Synchronizer configuration.
#[derive(Debug, Clone, Copy, PartialEq, Eq, Structural)]
pub struct SyncConfig {
    /// Target send rate (Hz).
    pub send_hz: u32,
    /// Longest hold after the last sample before interpolation stops (ms).
    pub max_interp_ms: u64,
}

impl Default for SyncConfig {
    fn default() -> (r: Self)
        ensures
            r.send_hz == 20,
            r.max_interp_ms == 200,
    {
        SyncConfig { send_hz: 20, max_interp_ms: 200 }
    }
}

/// Minimum interval between two sends for a send rate (a rate of 0 counts as 1).
pub open spec fn send_interval_of(send_hz: u32) -> nat {
    if send_hz == 0 {
        1000
    } else {
        1000nat / (send_hz as nat)
    }
}

impl SyncConfig {
    /// Checks the configuration: `send_hz` must be at least 1.
    pub fn validate(&self) -> (r: Result<(), CursorError>)
        ensures
            r is Ok <==> self.send_hz != 0,
            r matches Err(e) ==> e is InvalidConfig,
    {
        if self.send_hz == 0 {
            return Err(CursorError::InvalidConfig(owned("send_hz must be >= 1")));
        }
        Ok(())
    }

    /// Minimum interval between two sends (ms).
    pub fn send_interval_ms(&self) -> (r: u64)
        ensures
            r == send_interval_of(self.send_hz),
    {
        let hz: u64 = if self.send_hz == 0 {
            1
        } else {
            self.send_hz as u64
        };
        1000 / hz
    }
}

/// `a - b` on `i32`, saturated at the bounds of `i32`.
pub open spec fn saturating_sub_i32(a: i32, b: i32) -> int {
    if a - b > i32::MAX {
        i32::MAX as int
    } else if a - b < i32::MIN {
        i32::MIN as int
    } else {
        a - b
    }
}

/// The pixel offset of virtual-screen point `(px, py)` inside the display
/// whose top-left corner is `(origin_x, origin_y)`, when it lies in the
/// display's `display_w × display_h` rectangle.
pub open spec fn offset_in_display(
    px: i32,
    py: i32,
    origin_x: i32,
    origin_y: i32,
    display_w: u32,
    display_h: u32,
) -> Option<(u32, u32)> {
    let lx = saturating_sub_i32(px, origin_x);
    let ly = saturating_sub_i32(py, origin_y);
    if lx < 0 || ly < 0 || lx >= display_w || ly >= display_h {
        None
    } else {
        Some((lx as u32, ly as u32))
    }
}

fn saturating_sub(a: i32, b: i32) -> (r: i32)
    ensures
        r == saturating_sub_i32(a, b),
{
    let d = (a as i64) - (b as i64);
    if d > i32::MAX as i64 {
        i32::MAX
    } else if d < i32::MIN as i64 {
        i32::MIN
    } else {
        d as i32
    }
}

/// Locates a virtual-screen point on a display (multi-monitor): its pixel
/// offset from the display's origin, or `None` when it lies outside the
/// captured rectangle.
pub fn display_offset(
    px: i32,
    py: i32,
    origin_x: i32,
    origin_y: i32,
    display_w: u32,
    display_h: u32,
) -> (r: Option<(u32, u32)>)
    ensures
        r == offset_in_display(px, py, origin_x, origin_y, display_w, display_h),
{
    let lx = saturating_sub(px, origin_x);
    let ly = saturating_sub(py, origin_y);
    if lx < 0 || ly < 0 {
        return None;
    }
    let lx = lx as u32;
    let ly = ly as u32;
    if lx >= display_w || ly >= display_h {
        return None;
    }
    Some((lx, ly))
}

} // verus!
