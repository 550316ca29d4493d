//! Throttle: rate-limits how often the engine reacts to clipboard-change
//! notifications.
//!
//! The operating system can fire several change notifications for one logical
//! user action. The throttle keeps the timestamp of the last accepted
//! notification and lets a new one through only when at least [`THROTTLE_MS`]
//! milliseconds have passed since then, so a burst collapses into at most one
//! analysis pass per window.

use vstd::prelude::*;

verus! {

/// Minimum spacing, in milliseconds, between two accepted
/// clipboard-change analyses.
pub const THROTTLE_MS: u64 = 500;

/// Whether a notification at `now` passes the throttle whose last accepted
/// notification is `last`: it does when nothing was accepted yet, or when at
/// least `THROTTLE_MS` milliseconds have elapsed since the last accepted one.
pub open spec fn throttle_accepts(last: Option<u64>, now: u64) -> bool {
    match last {
        Option::None => true,
        Option::Some(t) => now - t >= THROTTLE_MS,
    }
}

/// Throttle state after a notification at `now`: an accepted notification is
/// recorded as the new last accepted timestamp, a suppressed one leaves the
/// record unchanged.
pub open spec fn throttle_next(last: Option<u64>, now: u64) -> Option<u64> {
    if throttle_accepts(last, now) {
        Option::Some(now)
    } else {
        last
    }
}

/// How many notifications of the burst `times`, fed to the throttle in
/// order starting from state `last`, it accepts.
pub open spec fn throttle_accept_count(last: Option<u64>, times: Seq<u64>) -> nat
    decreases times.len(),
{
    if times.len() == 0 {
        0
    } else {
        (if throttle_accepts(last, times[0]) {
            1nat
        } else {
            0nat
        }) + throttle_accept_count(throttle_next(last, times[0]), times.drop_first())
    }
}

/// The throttle: holds the timestamp, in monotonic milliseconds, of the last
/// accepted clipboard-change notification, or nothing before the first
/// accepted one.
pub struct Throttle {
    pub last_accepted: Option<u64>,
}

impl Throttle {
    /// A fresh throttle: the next notification is always accepted.
    pub fn new() -> (throttle: Throttle)
        ensures
            throttle.last_accepted is None,
    {
        Throttle { last_accepted: Option::None }
    }

    /// Decide whether the notification at `now` (monotonic milliseconds) may
    /// proceed. Accepting records `now`; suppressing changes nothing.
    pub fn check_throttle(&mut self, now: u64) -> (accepted: bool)
        ensures
            accepted == throttle_accepts(old(self).last_accepted, now),
            final(self).last_accepted == throttle_next(old(self).last_accepted, now),
    {
        match self.last_accepted {
            Option::Some(t) => {
                if now >= t && now - t >= THROTTLE_MS {
                    self.last_accepted = Option::Some(now);
                    true
                } else {
                    false
                }
            },
            Option::None => {
                self.last_accepted = Option::Some(now);
                true
            },
        }
    }
}

/// Once the throttle has accepted a notification at `t`, it accepts nothing
/// else for the rest of a burst that stays within `THROTTLE_MS` milliseconds
/// of `window_start`, and keeps `t` recorded throughout.
proof fn lemma_throttle_rest_suppressed(t: u64, times: Seq<u64>, window_start: u64)
    requires
        window_start <= t < window_start + THROTTLE_MS,
        forall|i: int|
            0 <= i < times.len() ==> window_start <= #[trigger] times[i] < window_start
                + THROTTLE_MS,
    ensures
        throttle_accept_count(Option::Some(t), times) == 0,
    decreases times.len(),
{
    if times.len() > 0 {
        assert(times[0] - t < THROTTLE_MS);
        lemma_throttle_rest_suppressed(t, times.drop_first(), window_start);
    }
}

/// For all notification bursts within a 500 ms window, the throttle accepts
/// at most one: whatever its starting state, feeding it any sequence of
/// timestamps that all fall within one `THROTTLE_MS` window yields at most
/// one accepted notification.
pub proof fn lemma_throttle_burst_accepts_at_most_one(
    last: Option<u64>,
    times: Seq<u64>,
    window_start: u64,
)
    requires
        forall|i: int|
            0 <= i < times.len() ==> window_start <= #[trigger] times[i] < window_start
                + THROTTLE_MS,
    ensures
        throttle_accept_count(last, times) <= 1,
    decreases times.len(),
{
    if times.len() > 0 {
        if throttle_accepts(last, times[0]) {
            lemma_throttle_rest_suppressed(times[0], times.drop_first(), window_start);
        } else {
            lemma_throttle_burst_accepts_at_most_one(last, times.drop_first(), window_start);
        }
    }
}

} // verus!
