//! Per-IP rate limiting of `CreateSession` / `JoinSession`.

use std::collections::HashMap;

use vstd::prelude::*;
use vstd::std_specs::hash::*;

use crate::clock::Clock;

verus! {

broadcast use vstd::std_specs::hash::group_hash_axioms;

/// Client address as a 128-bit key: IPv6 addresses by their bits, IPv4
/// addresses by their IPv4-mapped IPv6 form (`::ffff:a.b.c.d`).
pub type IpKey = u128;

/// The key of the IPv4 address `a.b.c.d`.
pub open spec fn ipv4_key_of(octets: [u8; 4]) -> u128 {
    (0xffff_0000_0000u128 + (octets[0] as u128) * 0x100_0000 + (octets[1] as u128) * 0x1_0000 + (
    octets[2] as u128) * 0x100 + (octets[3] as u128)) as u128
}

/// The key of an IPv4 address given by its octets.
pub fn ipv4_key(octets: [u8; 4]) -> (k: IpKey)
    ensures
        k == ipv4_key_of(octets),
{
    0xffff_0000_0000u128 + (octets[0] as u128) * 0x100_0000 + (octets[1] as u128) * 0x1_0000 + (
    octets[2] as u128) * 0x100 + (octets[3] as u128)
}

/// Length of the sliding window, in milliseconds.
pub const WINDOW_MS: u64 = 60_000;

/// An attempt at `t` still counts at `now` (an attempt from the future counts
/// as just made).
pub open spec fn within_window(t: u64, now: u64, window: u64) -> bool {
    (if now >= t {
        now - t
    } else {
        0
    }) < window
}

/// The attempts of `ts` that still count at `now`, in order.
pub open spec fn recent_attempts(ts: Seq<u64>, now: u64, window: u64) -> Seq<u64> {
    ts.filter(|t: u64| within_window(t, now, window))
}

/// Outcome of an attempt from `ip` at `now` under a limit `limit > 0`:
/// whether it is allowed, and the attempts on record afterwards.
pub open spec fn attempt_outcome(
    attempts: Map<IpKey, Seq<u64>>,
    limit: u32,
    window: u64,
    ip: IpKey,
    now: u64,
) -> (bool, Map<IpKey, Seq<u64>>) {
    let prev = if attempts.contains_key(ip) {
        attempts[ip]
    } else {
        Seq::<u64>::empty()
    };
    let kept = recent_attempts(prev, now, window);
    let allowed = kept.len() < limit;
    (
        allowed,
        attempts.insert(
            ip,
            if allowed {
                kept.push(now)
            } else {
                kept
            },
        ),
    )
}

/// Sliding-window limiter (60 s) keyed by client address.
#[derive(Debug)]
pub struct RateLimiter {
    limit: u32,
    window_ms: u64,
    clock: Clock,
    inner: HashMap<IpKey, Vec<u64>>,
}

impl RateLimiter {
    /// Attempts allowed per address and per window (`0` disables the limiter).
    pub closed spec fn limit(&self) -> u32 {
        self.limit
    }

    /// Window length in milliseconds.
    pub closed spec fn window(&self) -> u64 {
        self.window_ms
    }

    /// Recorded attempt times per address.
    pub closed spec fn attempts(&self) -> Map<IpKey, Seq<u64>> {
        Map::new(|k: IpKey| self.inner@.contains_key(k), |k: IpKey| self.inner@[k]@)
    }

    #[verifier::type_invariant]
    spec fn bounded(self) -> bool {
        forall|k: IpKey| #[trigger]
            self.inner@.contains_key(k) ==> self.inner@[k]@.len() <= self.limit
    }

    /// A limiter allowing `limit_per_min` attempts per address and per minute;
    /// `0` disables it (every attempt is allowed).
    pub fn new(limit_per_min: u32) -> (r: Self)
        ensures
            r.limit() == limit_per_min,
            r.window() == WINDOW_MS,
            r.attempts() == Map::<IpKey, Seq<u64>>::empty(),
    {
        let r = RateLimiter {
            limit: limit_per_min,
            window_ms: WINDOW_MS,
            clock: Clock::new(),
            inner: HashMap::new(),
        };
        assert(r.attempts() =~= Map::<IpKey, Seq<u64>>::empty());
        r
    }

    /// Records an attempt from `ip` at time `now` and tells whether it is
    /// allowed: attempts older than the window are forgotten, and the attempt
    /// is refused (and not recorded) once `limit` recent ones are on record.
    #[verifier::spinoff_prover]
    pub fn check_and_record_at(&mut self, ip: IpKey, now: u64) -> (r: bool)
        ensures
            final(self).limit() == old(self).limit(),
            final(self).window() == old(self).window(),
            old(self).limit() == 0 ==> r && final(self).attempts() == old(self).attempts(),
            old(self).limit() > 0 ==> (r, final(self).attempts()) == attempt_outcome(
                old(self).attempts(),
                old(self).limit(),
                old(self).window(),
                ip,
                now,
            ),
            forall|k: IpKey| #[trigger]
                final(self).attempts().contains_key(k) ==> final(self).attempts()[k].len()
                    <= final(self).limit(),
    {
        proof {
            use_type_invariant(&*self);
        }
        if self.limit == 0 {
            return true;
        }
        let ghost a0 = self.attempts();
        let mut inner: HashMap<IpKey, Vec<u64>> = HashMap::new();
        std::mem::swap(&mut inner, &mut self.inner);
        let ghost i0 = inner@;
        let prev: Vec<u64> = match inner.remove(&ip) {
            Some(v) => v,
            None => Vec::new(),
        };
        let ghost pseq = if a0.contains_key(ip) {
            a0[ip]
        } else {
            Seq::<u64>::empty()
        };
        assert(prev@ == pseq);
        let window = self.window_ms;
        let mut kept: Vec<u64> = Vec::new();
        let mut i: usize = 0;
        while i < prev.len()
            invariant
                prev@ == pseq,
                i <= prev@.len(),
                kept@ == pseq.take(i as int).filter(|t: u64| within_window(t, now, window)),
            decreases prev@.len() - i,
        {
            let t = prev[i];
            proof {
                reveal_with_fuel(Seq::<_>::filter, 1);
                assert(pseq.take(i + 1).drop_last() =~= pseq.take(i as int));
            }
            let elapsed = if now >= t {
                now - t
            } else {
                0
            };
            if elapsed < window {
                kept.push(t);
            }
            i = i + 1;
        }
        proof {
            assert(pseq.take(prev@.len() as int) =~= pseq);
            pseq.lemma_filter_len(|t: u64| within_window(t, now, window));
        }
        let allowed = (kept.len() as u64) < (self.limit as u64);
        if allowed {
            kept.push(now);
        }
        inner.insert(ip, kept);
        self.inner = inner;
        proof {
            assert(self.attempts() =~= a0.insert(ip, self.inner@[ip]@));
        }
        allowed
    }

    /// Records an attempt from `ip` now and tells whether it is allowed (see
    /// [`RateLimiter::check_and_record_at`]).
    pub fn check_and_record(&mut self, ip: IpKey) -> (r: bool)
        ensures
            final(self).limit() == old(self).limit(),
            final(self).window() == old(self).window(),
            old(self).limit() == 0 ==> r && final(self).attempts() == old(self).attempts(),
            old(self).limit() > 0 ==> exists|now: u64|
                (r, final(self).attempts()) == #[trigger] attempt_outcome(
                    old(self).attempts(),
                    old(self).limit(),
                    old(self).window(),
                    ip,
                    now,
                ),
            forall|k: IpKey| #[trigger]
                final(self).attempts().contains_key(k) ==> final(self).attempts()[k].len()
                    <= final(self).limit(),
    {
        let now = self.clock.now_ms();
        self.check_and_record_at(ip, now)
    }
}

/// An attempt from one address never changes what is on record for another.
pub proof fn lemma_addresses_isolated(
    attempts: Map<IpKey, Seq<u64>>,
    limit: u32,
    window: u64,
    ip: IpKey,
    now: u64,
    other: IpKey,
)
    requires
        other != ip,
    ensures
        attempt_outcome(attempts, limit, window, ip, now).1.contains_key(other)
            == attempts.contains_key(other),
        attempts.contains_key(other) ==> attempt_outcome(attempts, limit, window, ip, now).1[other]
            == attempts[other],
{
}

/// At most `limit` attempts of an address are ever on record (and so at most
/// `limit` count in any window); an attempt is refused exactly when `limit`
/// recent ones are already there, and a refused attempt is not recorded.
pub proof fn lemma_window_bound(
    attempts: Map<IpKey, Seq<u64>>,
    limit: u32,
    window: u64,
    ip: IpKey,
    now: u64,
)
    requires
        limit > 0,
        forall|k: IpKey| #[trigger] attempts.contains_key(k) ==> attempts[k].len() <= limit,
    ensures
        forall|k: IpKey| #[trigger]
            attempt_outcome(attempts, limit, window, ip, now).1.contains_key(k) ==> attempt_outcome(
                attempts,
                limit,
                window,
                ip,
                now,
            ).1[k].len() <= limit,
        !attempt_outcome(attempts, limit, window, ip, now).0 ==> attempt_outcome(
            attempts,
            limit,
            window,
            ip,
            now,
        ).1[ip] == recent_attempts(
            if attempts.contains_key(ip) {
                attempts[ip]
            } else {
                Seq::<u64>::empty()
            },
            now,
            window,
        ),
{
    let prev = if attempts.contains_key(ip) {
        attempts[ip]
    } else {
        Seq::<u64>::empty()
    };
    prev.lemma_filter_len(|t: u64| within_window(t, now, window));
}

/// The record and the allowed attempts after attempts from one address at the
/// times `ts`, in order, starting from an empty record (a limiter with
/// `limit > 0`).
pub open spec fn run_attempts(ts: Seq<u64>, limit: u32, window: u64) -> (Seq<u64>, Seq<u64>)
    decreases ts.len(),
{
    if ts.len() == 0 {
        (Seq::empty(), Seq::empty())
    } else {
        let (record, allowed) = run_attempts(ts.drop_last(), limit, window);
        let now = ts.last();
        let kept = recent_attempts(record, now, window);
        if kept.len() < limit {
            (kept.push(now), allowed.push(now))
        } else {
            (kept, allowed)
        }
    }
}

/// Times that never go back.
pub open spec fn nondecreasing(ts: Seq<u64>) -> bool {
    forall|i: int, j: int| 0 <= i <= j < ts.len() ==> ts[i] <= ts[j]
}

/// Forgetting at `p` then at a later `q` forgets as much as forgetting at `q`.
proof fn lemma_recent_twice(s: Seq<u64>, p: u64, q: u64, window: u64)
    requires
        p <= q,
        window > 0,
    ensures
        recent_attempts(recent_attempts(s, p, window), q, window) == recent_attempts(s, q, window),
    decreases s.len(),
{
    reveal_with_fuel(Seq::<_>::filter, 1);
    if s.len() > 0 {
        lemma_recent_twice(s.drop_last(), p, q, window);
        let t = s.last();
        assert(within_window(t, q, window) ==> within_window(t, p, window));
        let inner = recent_attempts(s, p, window);
        if within_window(t, p, window) {
            assert(inner.drop_last() =~= recent_attempts(s.drop_last(), p, window));
        } else {
            assert(inner =~= recent_attempts(s.drop_last(), p, window));
        }
    }
}

/// The attempt just made counts in its own window.
proof fn lemma_recent_push(s: Seq<u64>, now: u64, window: u64)
    requires
        window > 0,
    ensures
        recent_attempts(s.push(now), now, window) == recent_attempts(s, now, window).push(now),
{
    reveal_with_fuel(Seq::<_>::filter, 1);
    assert(s.push(now).drop_last() =~= s);
}

/// The record of a run holds exactly the allowed attempts that still count at
/// the last attempt, and never more than `limit` of them.
pub proof fn lemma_run_record(ts: Seq<u64>, limit: u32, window: u64)
    requires
        limit > 0,
        window > 0,
        ts.len() > 0,
        nondecreasing(ts),
    ensures
        run_attempts(ts, limit, window).0 == recent_attempts(
            run_attempts(ts, limit, window).1,
            ts.last(),
            window,
        ),
        run_attempts(ts, limit, window).0.len() <= limit,
    decreases ts.len(),
{
    let prev_ts = ts.drop_last();
    let now = ts.last();
    let (record, allowed) = run_attempts(prev_ts, limit, window);
    let kept = recent_attempts(record, now, window);
    if prev_ts.len() == 0 {
        reveal_with_fuel(Seq::<_>::filter, 2);
        assert(record =~= Seq::<u64>::empty());
        assert(kept =~= Seq::<u64>::empty());
        lemma_recent_push(Seq::<u64>::empty(), now, window);
        assert(Seq::<u64>::empty().push(now) =~= allowed.push(now));
    } else {
        assert(nondecreasing(prev_ts));
        lemma_run_record(prev_ts, limit, window);
        let p = prev_ts.last();
        assert(p <= now);
        lemma_recent_twice(allowed, p, now, window);
        record.lemma_filter_len(|t: u64| within_window(t, now, window));
        if kept.len() < limit {
            lemma_recent_push(allowed, now, window);
        }
    }
}

/// A run of attempts from one address, at times that never go back: at most
/// `limit` of the attempts allowed lie in any window that ends at an attempt
/// (and so in any window of the limiter's length).
pub proof fn lemma_at_most_limit_per_window(ts: Seq<u64>, limit: u32, window: u64, j: int)
    requires
        limit > 0,
        window > 0,
        nondecreasing(ts),
        0 <= j < ts.len(),
    ensures
        recent_attempts(run_attempts(ts.take(j + 1), limit, window).1, ts[j], window).len() <= limit,
{
    let pre = ts.take(j + 1);
    assert(nondecreasing(pre));
    assert(pre.last() == ts[j]);
    lemma_run_record(pre, limit, window);
}

/// The limiter follows [`run_attempts`]: when the record of `ip` is the record
/// of a run (or absent, for the empty run), an attempt at a time no earlier
/// than the run's last extends the run.
pub proof fn lemma_limiter_follows_run(
    attempts: Map<IpKey, Seq<u64>>,
    ts: Seq<u64>,
    limit: u32,
    window: u64,
    ip: IpKey,
    now: u64,
)
    requires
        limit > 0,
        ts.len() == 0 ==> !attempts.contains_key(ip),
        ts.len() > 0 ==> attempts.contains_key(ip) && attempts[ip] == run_attempts(ts, limit, window).0,
    ensures
        attempt_outcome(attempts, limit, window, ip, now).1[ip] == run_attempts(
            ts.push(now),
            limit,
            window,
        ).0,
        attempt_outcome(attempts, limit, window, ip, now).0 == (run_attempts(
            ts.push(now),
            limit,
            window,
        ).1.len() > run_attempts(ts, limit, window).1.len()),
{
    assert(ts.push(now).drop_last() =~= ts);
    if ts.len() == 0 {
        assert(run_attempts(ts, limit, window).0 =~= Seq::<u64>::empty());
    }
}

/// In a run of attempts from one address at times that never go back, an
/// attempt is allowed exactly when fewer than `limit` of the earlier allowed
/// attempts still count in the window at its time; an allowed attempt is
/// added to the allowed ones, a refused one adds nothing.
pub proof fn lemma_refused_iff_window_full(ts: Seq<u64>, limit: u32, window: u64)
    requires
        limit > 0,
        window > 0,
        ts.len() > 0,
        nondecreasing(ts),
    ensures
        ({
            let before = run_attempts(ts.drop_last(), limit, window).1;
            let after = run_attempts(ts, limit, window).1;
            let allowed = recent_attempts(before, ts.last(), window).len() < limit;
            &&& allowed ==> after == before.push(ts.last())
            &&& !allowed ==> after == before
        }),
{
    let prev_ts = ts.drop_last();
    let now = ts.last();
    let (record, allowed) = run_attempts(prev_ts, limit, window);
    if prev_ts.len() == 0 {
        reveal_with_fuel(Seq::<_>::filter, 2);
        assert(record =~= Seq::<u64>::empty());
        assert(allowed =~= Seq::<u64>::empty());
        assert(recent_attempts(record, now, window) =~= Seq::<u64>::empty());
        assert(recent_attempts(allowed, now, window) =~= Seq::<u64>::empty());
    } else {
        assert(nondecreasing(prev_ts));
        lemma_run_record(prev_ts, limit, window);
        assert(prev_ts.last() <= now);
        lemma_recent_twice(allowed, prev_ts.last(), now, window);
    }
}

} // verus!
