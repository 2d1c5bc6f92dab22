//! Local and remote cursor tracking.
//!
//! Coordinates are `f32` bit patterns (see [`crate::protocol::messages`]).
//! Clamping to `[0, 1]` is decided on the bit patterns; blending two samples
//! into an interpolated pose is floating-point arithmetic and is left to the
//! caller, which receives here which samples to use and how.

use vstd::prelude::*;

use crate::cursor::throttle::{send_allowed, SendThrottle};
use crate::cursor::types::{send_interval_of, SyncConfig};
use crate::protocol::ids::CursorId;
use crate::protocol::messages::Message;
use crate::protocol::validate::unit_interval_bits;

verus! {

/// `f32::clamp(v, 0.0, 1.0)` on the bit pattern `b` of `v`: NaNs and values in
/// `[0, 1]` (including `-0.0`) are returned unchanged, other negatives become
/// `0.0`, values above one (including `+inf`) become `1.0`.
pub open spec fn clamp_unit_bits(b: u32) -> u32 {
    if (0x7f80_0000u32 < b && b < 0x8000_0000u32) || b > 0xff80_0000u32 {
        b
    } else if b > 0x8000_0000u32 {
        0
    } else if 0x3f80_0000u32 < b && b < 0x8000_0000u32 {
        0x3f80_0000u32
    } else {
        b
    }
}

/// Exec form of [`clamp_unit_bits`].
pub fn clamp_unit(b: u32) -> (r: u32)
    ensures
        r == clamp_unit_bits(b),
{
    if (0x7f80_0000u32 < b && b < 0x8000_0000u32) || b > 0xff80_0000u32 {
        b
    } else if b > 0x8000_0000u32 {
        0
    } else if 0x3f80_0000u32 < b && b < 0x8000_0000u32 {
        0x3f80_0000u32
    } else {
        b
    }
}

/// A cursor sample.
#[derive(Debug, Clone, Copy, PartialEq, Eq, Structural)]
pub struct Sample {
    /// Normalized abscissa (`f32` bits).
    pub x: u32,
    /// Normalized ordinate (`f32` bits).
    pub y: u32,
    /// Unix time in ms.
    pub timestamp_ms: u64,
}

/// How the remote pose is obtained at a given time.
#[derive(Debug, Clone, Copy, PartialEq, Eq, Structural)]
pub enum PosePlan {
    /// The last sample is older than the interpolation horizon: hold it, with
    /// its own timestamp.
    Hold(Sample),
    /// Blend from `prev` to `last` by the factor `(now - prev) / (last - prev)`
    /// clamped to `[0, 1]`, and `1` once `now` reaches `last`.
    Blend {
        /// Earlier sample.
        prev: Sample,
        /// Later sample.
        last: Sample,
        /// Time of the pose.
        now: u64,
    },
    /// Show the last sample, at time `now`.
    Latest {
        /// The last sample.
        last: Sample,
        /// Time of the pose.
        now: u64,
    },
}

/// Synchronizer of collaborative cursors.
#[derive(Debug)]
pub struct CursorSync {
    config: SyncConfig,
    local_id: CursorId,
    throttle: SendThrottle,
    last_local: Option<Sample>,
    remote_prev: Option<Sample>,
    remote_last: Option<Sample>,
    remote_id: Option<CursorId>,
}

/// The abstract state of a synchronizer.
pub struct CursorSyncModel {
    /// Configuration in use.
    pub config: SyncConfig,
    /// Local cursor identifier.
    pub local_id: CursorId,
    /// Time of the last local send.
    pub last_sent: Option<u64>,
    /// Last local position (even when not sent).
    pub last_local: Option<Sample>,
    /// Previous remote sample.
    pub remote_prev: Option<Sample>,
    /// Latest remote sample.
    pub remote_last: Option<Sample>,
    /// Identifier of the remote cursor.
    pub remote_id: Option<CursorId>,
}

impl View for CursorSync {
    type V = CursorSyncModel;

    closed spec fn view(&self) -> CursorSyncModel {
        CursorSyncModel {
            config: self.config,
            local_id: self.local_id,
            last_sent: self.throttle.last_sent(),
            last_local: self.last_local,
            remote_prev: self.remote_prev,
            remote_last: self.remote_last,
            remote_id: self.remote_id,
        }
    }
}

/// The state after a remote message: samples of the local cursor and
/// non-`CursorMove` messages are ignored; a new remote cursor restarts the
/// history; an out-of-order sample is dropped.
pub open spec fn after_remote(s: CursorSyncModel, m: Message) -> CursorSyncModel {
    match m {
        Message::CursorMove { cursor_id, x, y, timestamp_ms } => {
            let sample = Sample { x: clamp_unit_bits(x), y: clamp_unit_bits(y), timestamp_ms };
            if cursor_id == s.local_id {
                s
            } else if s.remote_id != Some(cursor_id) {
                CursorSyncModel {
                    remote_id: Some(cursor_id),
                    remote_prev: None,
                    remote_last: Some(sample),
                    ..s
                }
            } else if s.remote_last matches Some(last) && timestamp_ms < last.timestamp_ms {
                s
            } else {
                CursorSyncModel {
                    remote_prev: if s.remote_last is Some {
                        s.remote_last
                    } else {
                        s.remote_prev
                    },
                    remote_last: Some(sample),
                    ..s
                }
            }
        },
        _ => s,
    }
}

/// The state and the message after a local position at `now`: the sample is
/// recorded, and a `CursorMove` of the local cursor is sent when the throttle
/// allows it.
pub open spec fn local_outcome(s: CursorSyncModel, x: u32, y: u32, now: u64) -> (
    CursorSyncModel,
    Option<Message>,
) {
    let sample = Sample { x: clamp_unit_bits(x), y: clamp_unit_bits(y), timestamp_ms: now };
    let allowed = send_allowed(s.last_sent, now, send_interval_of(s.config.send_hz));
    (
        CursorSyncModel {
            last_local: Some(sample),
            last_sent: if allowed {
                Some(now)
            } else {
                s.last_sent
            },
            ..s
        },
        if allowed {
            Some(
                Message::CursorMove {
                    cursor_id: s.local_id,
                    x: sample.x,
                    y: sample.y,
                    timestamp_ms: now,
                },
            )
        } else {
            None
        },
    )
}

/// The pose plan at `now`, when a remote cursor is known.
pub open spec fn pose_plan_at(s: CursorSyncModel, now: u64) -> Option<(CursorId, PosePlan)> {
    match (s.remote_last, s.remote_id) {
        (Some(last), Some(id)) => {
            let age = if now >= last.timestamp_ms {
                now - last.timestamp_ms
            } else {
                0
            };
            if age > s.config.max_interp_ms {
                Some((id, PosePlan::Hold(last)))
            } else if s.remote_prev matches Some(prev) && last.timestamp_ms > prev.timestamp_ms {
                Some((id, PosePlan::Blend { prev: s.remote_prev.unwrap(), last, now }))
            } else {
                Some((id, PosePlan::Latest { last, now }))
            }
        },
        _ => None,
    }
}

impl CursorSync {
    /// A synchronizer with a new random local cursor identifier; an invalid
    /// configuration is replaced by the default one.
    pub fn new(config: SyncConfig) -> (r: Self)
        ensures
            r@.config == if config.send_hz != 0 {
                config
            } else {
                SyncConfig { send_hz: 20, max_interp_ms: 200 }
            },
            r@.last_sent is None,
            r@.last_local is None,
            r@.remote_prev is None,
            r@.remote_last is None,
            r@.remote_id is None,
    {
        let config = if config.validate().is_ok() {
            config
        } else {
            SyncConfig::default()
        };
        CursorSync {
            config,
            local_id: CursorId::new(),
            throttle: SendThrottle::new(),
            last_local: None,
            remote_prev: None,
            remote_last: None,
            remote_id: None,
        }
    }

    /// Identifier of the local cursor.
    pub fn local_id(&self) -> (r: CursorId)
        ensures
            r == self@.local_id,
    {
        self.local_id
    }

    /// Records a local position; returns a `CursorMove` when the throttle
    /// allows a send (see [`local_outcome`]).
    pub fn push_local(&mut self, x: u32, y: u32, now_ms: u64) -> (r: Option<Message>)
        ensures
            (final(self)@, r) == local_outcome(old(self)@, x, y, now_ms),
    {
        let x = clamp_unit(x);
        let y = clamp_unit(y);
        self.last_local = Some(Sample { x, y, timestamp_ms: now_ms });
        if !self.throttle.try_send(now_ms, &self.config) {
            return None;
        }
        Some(Message::CursorMove { cursor_id: self.local_id, x, y, timestamp_ms: now_ms })
    }

    /// Takes in a remote message (see [`after_remote`]).
    pub fn on_remote(&mut self, msg: &Message)
        ensures
            final(self)@ == after_remote(old(self)@, *msg),
    {
        if let Message::CursorMove { cursor_id, x, y, timestamp_ms } = msg {
            if *cursor_id == self.local_id {
                return;
            }
            let sample = Sample { x: clamp_unit(*x), y: clamp_unit(*y), timestamp_ms: *timestamp_ms };
            if self.remote_id != Some(*cursor_id) {
                self.remote_id = Some(*cursor_id);
                self.remote_prev = None;
                self.remote_last = Some(sample);
                return;
            }
            if let Some(last) = self.remote_last {
                if sample.timestamp_ms < last.timestamp_ms {
                    return;
                }
                self.remote_prev = Some(last);
            }
            self.remote_last = Some(sample);
        }
    }

    /// How to obtain the remote pose at `now_ms`, if a remote cursor is known.
    pub fn remote_pose_plan(&self, now_ms: u64) -> (r: Option<(CursorId, PosePlan)>)
        ensures
            r == pose_plan_at(self@, now_ms),
    {
        let last = match self.remote_last {
            Some(l) => l,
            None => {
                return None;
            },
        };
        let cursor_id = match self.remote_id {
            Some(id) => id,
            None => {
                return None;
            },
        };
        let age = if now_ms >= last.timestamp_ms {
            now_ms - last.timestamp_ms
        } else {
            0
        };
        if age > self.config.max_interp_ms {
            return Some((cursor_id, PosePlan::Hold(last)));
        }
        match self.remote_prev {
            Some(prev) => {
                if last.timestamp_ms > prev.timestamp_ms {
                    return Some((cursor_id, PosePlan::Blend { prev, last, now: now_ms }));
                }
            },
            None => {},
        }
        Some((cursor_id, PosePlan::Latest { last, now: now_ms }))
    }
}

/// The `f32` with bit pattern `b` is a NaN: all exponent bits set and a
/// non-zero mantissa, of either sign.
pub open spec fn nan_bits(b: u32) -> bool {
    (0x7f80_0000u32 < b && b <= 0x7fff_ffffu32) || (0xff80_0000u32 < b)
}

/// The `f32` with bit pattern `b` is above `1.0`, up to `+inf`.
pub open spec fn above_one_bits(b: u32) -> bool {
    0x3f80_0000u32 < b && b <= 0x7f80_0000u32
}

/// The `f32` with bit pattern `b` is below zero, down to `-inf` (`-0.0`,
/// equal to zero, is not).
pub open spec fn below_zero_bits(b: u32) -> bool {
    0x8000_0000u32 < b && b <= 0xff80_0000u32
}

/// Clamping to `[0, 1]` leaves a coordinate already in `[0, 1]` (and a NaN)
/// as it is, takes every value above one to `1.0` and every value below zero
/// to `0.0`; so every result that is not a NaN lies in `[0, 1]`. Every bit
/// pattern is in exactly one of `[0, 1]`, NaN, above one and below zero.
pub proof fn lemma_clamp_unit(b: u32)
    ensures
        unit_interval_bits(b) ==> clamp_unit_bits(b) == b,
        nan_bits(b) ==> clamp_unit_bits(b) == b,
        above_one_bits(b) ==> clamp_unit_bits(b) == 0x3f80_0000u32,
        below_zero_bits(b) ==> clamp_unit_bits(b) == 0u32,
        !nan_bits(b) ==> unit_interval_bits(clamp_unit_bits(b)),
        unit_interval_bits(b) || nan_bits(b) || above_one_bits(b) || below_zero_bits(b),
        unit_interval_bits(b) ==> !nan_bits(b) && !above_one_bits(b) && !below_zero_bits(b),
{
}

/// A local position already in `[0, 1]` is recorded, and sent when the
/// throttle allows, exactly as it was given; a remote sample already in
/// `[0, 1]` is kept as it came.
pub proof fn lemma_in_range_positions_kept(
    s: CursorSyncModel,
    x: u32,
    y: u32,
    now: u64,
    cursor_id: CursorId,
    timestamp_ms: u64,
)
    requires
        unit_interval_bits(x),
        unit_interval_bits(y),
    ensures
        local_outcome(s, x, y, now).0.last_local == Some(Sample { x, y, timestamp_ms: now }),
        local_outcome(s, x, y, now).1 matches Some(m) ==> m == (Message::CursorMove {
            cursor_id: s.local_id,
            x,
            y,
            timestamp_ms: now,
        }),
        ({
            let s1 = after_remote(s, Message::CursorMove { cursor_id, x, y, timestamp_ms });
            s1.remote_last != s.remote_last ==> s1.remote_last == Some(Sample { x, y, timestamp_ms })
        }),
{
    lemma_clamp_unit(x);
    lemma_clamp_unit(y);
}

} // verus!
