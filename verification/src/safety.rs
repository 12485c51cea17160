//! The safety monitor's decisions: how often TARS may move, when a silent
//! controller connection becomes an emergency, and that an emergency stays
//! raised.
//!
//! Times are milliseconds on a monotonic clock that the caller reads.

use vstd::prelude::*;

verus! {

/// Rate limiting, watchdog and emergency state.
#[derive(Debug, Clone, Copy, PartialEq, Eq, Structural)]
pub struct Safety {
    pub last_move_ms: u64,
    pub last_watchdog_ms: u64,
    pub emergency: bool,
    pub rate_limit_ms: u64,
    pub connection_timeout_ms: u64,
}

/// Time elapsed from `earlier` to `now`; none if the clock reads earlier.
pub open spec fn elapsed(now: u64, earlier: u64) -> int {
    if now >= earlier { now - earlier } else { 0 }
}

/// A move check at `now`: the monitor after it, and whether the move may go.
pub open spec fn move_step(s: Safety, now: u64) -> (Safety, bool) {
    if elapsed(now, s.last_move_ms) >= s.rate_limit_ms {
        (Safety { last_move_ms: now, ..s }, true)
    } else {
        (s, false)
    }
}

/// A watchdog round at `now`: the monitor after it, and whether the
/// controller had fallen silent.
pub open spec fn watchdog_step(s: Safety, now: u64) -> (Safety, bool) {
    if elapsed(now, s.last_watchdog_ms) > s.connection_timeout_ms {
        (Safety { emergency: true, ..s }, true)
    } else {
        (s, false)
    }
}

impl Safety {
    /// A monitor started at `now_ms`: moves at most every 100 ms, an
    /// emergency after 3 s without a watchdog feed, no emergency yet.
    pub fn new(now_ms: u64) -> (s: Self)
        ensures
            s == (Safety {
                last_move_ms: now_ms,
                last_watchdog_ms: now_ms,
                emergency: false,
                rate_limit_ms: 100,
                connection_timeout_ms: 3000,
            }),
    {
        Safety {
            last_move_ms: now_ms,
            last_watchdog_ms: now_ms,
            emergency: false,
            rate_limit_ms: 100,
            connection_timeout_ms: 3000,
        }
    }

    /// Whether a move may start at `now_ms`: only once the rate limit has
    /// passed since the last allowed move, which an allowed move then
    /// becomes.
    pub fn check_move_allowed(&mut self, now_ms: u64) -> (allowed: bool)
        ensures
            (*final(self), allowed) == move_step(*old(self), now_ms),
    {
        let since = if now_ms >= self.last_move_ms { now_ms - self.last_move_ms } else { 0 };
        if since >= self.rate_limit_ms {
            self.last_move_ms = now_ms;
            true
        } else {
            false
        }
    }

    /// Raises the emergency.
    pub fn trigger_emergency(&mut self)
        ensures
            *final(self) == (Safety { emergency: true, ..*old(self) }),
    {
        self.emergency = true;
    }

    /// Whether an emergency has been raised.
    pub fn is_emergency(&self) -> (r: bool)
        ensures
            r == self.emergency,
    {
        self.emergency
    }

    /// Records that the controller was heard from at `now_ms`.
    pub fn feed_watchdog(&mut self, now_ms: u64)
        ensures
            *final(self) == (Safety { last_watchdog_ms: now_ms, ..*old(self) }),
    {
        self.last_watchdog_ms = now_ms;
    }

    /// One round of the watchdog at `now_ms`: raises the emergency when the
    /// controller has been silent for longer than the connection timeout, and
    /// says whether it did.
    pub fn watchdog_check(&mut self, now_ms: u64) -> (expired: bool)
        ensures
            (*final(self), expired) == watchdog_step(*old(self), now_ms),
    {
        let since = if now_ms >= self.last_watchdog_ms { now_ms - self.last_watchdog_ms } else { 0 };
        if since > self.connection_timeout_ms {
            self.trigger_emergency();
            true
        } else {
            false
        }
    }
}

/// An emergency, once raised, stays raised: no move check, watchdog feed or
/// watchdog round clears it.
pub proof fn law_emergency_is_sticky(s: Safety, now_ms: u64)
    requires
        s.emergency,
    ensures
        move_step(s, now_ms).0.emergency,
        (Safety { last_watchdog_ms: now_ms, ..s }).emergency,
        watchdog_step(s, now_ms).0.emergency,
{
}

/// After a move is allowed at `t1`, the next move is allowed at `t2` only if
/// the rate limit has passed since `t1`.
pub proof fn law_moves_are_rate_limited(s: Safety, t1: u64, t2: u64)
    requires
        move_step(s, t1).1,
    ensures
        move_step(move_step(s, t1).0, t2).1 <==> elapsed(t2, t1) >= s.rate_limit_ms,
{
}

/// A controller that keeps feeding the watchdog within the timeout never
/// raises an emergency.
pub proof fn law_fed_watchdog_stays_calm(s: Safety, fed_at: u64, now_ms: u64)
    requires
        !s.emergency,
        elapsed(now_ms, fed_at) <= s.connection_timeout_ms,
    ensures
        !watchdog_step(Safety { last_watchdog_ms: fed_at, ..s }, now_ms).0.emergency,
        !watchdog_step(Safety { last_watchdog_ms: fed_at, ..s }, now_ms).1,
{
}

} // verus!
