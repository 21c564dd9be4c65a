//! Recurring countdown gate: every timed action in the game (turret fire rate,
//! missile trail emission, site spawning) waits on one of these.
//!
//! The timer holds a remaining time and a configured interval, both in
//! milliseconds. Each tick subtracts the elapsed time; when the remaining time
//! is used up the timer fires and resets to the interval. At most one firing
//! per tick: when the elapsed time spans several intervals, the extra
//! intervals are dropped rather than replayed.

use vstd::prelude::*;

verus! {

/// A recurring countdown gate over millisecond times.
#[derive(Clone, Copy, PartialEq, Eq, Structural, Debug)]
pub struct CooldownTimer {
    /// Milliseconds left until the timer fires.
    pub remaining_ms: u64,
    /// Milliseconds the timer resets to when it fires.
    pub interval_ms: u64,
}

impl CooldownTimer {
    /// A timer never holds more time than one full interval.
    pub open spec fn wf(self) -> bool {
        self.remaining_ms <= self.interval_ms
    }

    /// What one tick does: fire and reset when the elapsed time uses up the
    /// remaining time, otherwise just count down.
    pub open spec fn tick_spec(self, delta_ms: u64) -> (CooldownTimer, bool) {
        if self.remaining_ms <= delta_ms {
            (CooldownTimer { remaining_ms: self.interval_ms, ..self }, true)
        } else {
            (CooldownTimer { remaining_ms: (self.remaining_ms - delta_ms) as u64, ..self }, false)
        }
    }

    /// A fresh timer fires on its first tick, like an action that has never
    /// been throttled.
    pub fn new(interval_ms: u64) -> (t: CooldownTimer)
        ensures
            t == (CooldownTimer { remaining_ms: 0, interval_ms }),
            t.wf(),
    {
        CooldownTimer { remaining_ms: 0, interval_ms }
    }

    /// Count down by `delta_ms`; report whether the timer fired. Firing resets
    /// the remaining time to the configured interval, at most once per call.
    pub fn tick(&mut self, delta_ms: u64) -> (fired: bool)
        ensures
            (*final(self), fired) == old(self).tick_spec(delta_ms),
            old(self).wf() ==> final(self).wf(),
    {
        if self.remaining_ms <= delta_ms {
            self.remaining_ms = self.interval_ms;
            true
        } else {
            self.remaining_ms = self.remaining_ms - delta_ms;
            false
        }
    }
}

/// Law: a well-formed timer ticked with exactly its configured interval fires
/// on that tick, and its remaining time is the full interval again.
pub proof fn lemma_fires_on_full_interval(t: CooldownTimer)
    requires
        t.wf(),
    ensures
        t.tick_spec(t.interval_ms).1,
        t.tick_spec(t.interval_ms).0.remaining_ms == t.interval_ms,
{
}

} // verus!
