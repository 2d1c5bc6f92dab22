//! Send throttling (~20 Hz).

use vstd::prelude::*;

use crate::cursor::types::{send_interval_of, SyncConfig};

verus! {

/// Remembers when the last send happened.
#[derive(Debug, Clone, Copy, Default)]
pub struct SendThrottle {
    last_sent_ms: Option<u64>,
}

/// A send at `now` is allowed after a last send at `last`: the interval has
/// elapsed (a clock that went back counts as no time elapsed).
pub open spec fn send_allowed(last: Option<u64>, now: u64, interval: nat) -> bool {
    match last {
        Some(t) => (if now >= t {
            now - t
        } else {
            0
        }) >= interval,
        None => true,
    }
}

impl SendThrottle {
    /// Time of the last allowed send, if any.
    pub closed spec fn last_sent(&self) -> Option<u64> {
        self.last_sent_ms
    }

    /// A throttle that has never sent.
    pub fn new() -> (r: Self)
        ensures
            r.last_sent() is None,
    {
        SendThrottle { last_sent_ms: None }
    }

    /// Tells whether a send is allowed at `now_ms`; if so, records it.
    pub fn try_send(&mut self, now_ms: u64, config: &SyncConfig) -> (r: bool)
        ensures
            r == send_allowed(old(self).last_sent(), now_ms, send_interval_of(config.send_hz)),
            final(self).last_sent() == if r {
                Some(now_ms)
            } else {
                old(self).last_sent()
            },
    {
        let interval = config.send_interval_ms();
        match self.last_sent_ms {
            Some(last) => {
                let elapsed = if now_ms >= last {
                    now_ms - last
                } else {
                    0
                };
                if elapsed < interval {
                    return false;
                }
            },
            None => {},
        }
        self.last_sent_ms = Some(now_ms);
        true
    }
}

/// Two sends that the throttle allows, one after the other on a clock that
/// does not go back, are at least one interval apart; the first send is
/// always allowed.
pub proof fn lemma_sends_are_spaced(t1: u64, t2: u64, interval: nat)
    requires
        t1 <= t2,
        send_allowed(Some(t1), t2, interval),
    ensures
        t2 - t1 >= interval,
        send_allowed(None, t1, interval),
{
}

} // verus!
