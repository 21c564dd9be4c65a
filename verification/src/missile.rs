//! Homing missile flight model.
//!
//! A missile owns a remaining flight-time budget, a scalar speed that ramps
//! under constant acceleration toward a top speed, and the constants of that
//! ramp. Its heading is a unit vector kept by the host's kinematic
//! integrator; this module decides the scalar side of every tick: whether the
//! missile keeps flying, silently drops because its target vanished, or
//! expires because its time budget ran out.

use vstd::prelude::*;

verus! {

/// A homing missile in flight. Also used for the gift projectiles the player
/// fires back, which fly under the same model.
#[derive(Clone, Copy, PartialEq, Eq, Structural, Debug)]
pub struct SurfaceToAirMissile {
    /// Milliseconds of flight left before self-destruction.
    pub time_to_live: u64,
    /// Speed gained per second of flight, milli-units per second.
    pub acceleration: u32,
    /// Current scalar speed, milli-units per second.
    pub velocity: u32,
    /// Top speed the ramp is clamped to, milli-units per second.
    pub max_velocity: u32,
}

/// What one tick decides for a missile.
#[derive(Clone, Copy, PartialEq, Eq, Structural, Debug)]
pub enum MissileStep {
    /// The missile flies on with the returned state.
    Flying,
    /// The flight-time budget ran out: the missile expires, observably.
    Expired,
    /// The target could not be resolved: the missile is silently dropped.
    Orphaned,
}

/// One tick of the flight-time countdown: `None` once the budget is used up,
/// paired with whether this very tick used it up.
pub open spec fn ttl_step(ttl_ms: u64, delta_ms: u64) -> (Option<u64>, bool) {
    if ttl_ms <= delta_ms {
        (None::<u64>, true)
    } else {
        (Some((ttl_ms - delta_ms) as u64), false)
    }
}

/// The scalar speed after one tick: gain `acceleration` for every full second
/// of elapsed time, pro rata, clamped to the top speed.
pub open spec fn speed_after(velocity: int, acceleration: int, max_velocity: int, delta_ms: int) -> int {
    let gained = velocity + (acceleration * delta_ms) / 1000;
    if gained <= max_velocity {
        gained
    } else {
        max_velocity
    }
}

/// The state every missile (and gift projectile) leaves its launcher with.
pub open spec fn launched_missile() -> SurfaceToAirMissile {
    SurfaceToAirMissile {
        time_to_live: crate::constants::SAM_TIME_TO_LIVE,
        acceleration: crate::constants::SAM_ACCELERATION,
        velocity: crate::constants::SAM_LAUNCH_SPEED,
        max_velocity: crate::constants::SAM_MAX_SPEED,
    }
}

impl SurfaceToAirMissile {
    /// A missile never flies faster than its top speed.
    pub open spec fn wf(self) -> bool {
        self.velocity <= self.max_velocity
    }

    pub fn new(time_to_live: u64, acceleration: u32, velocity: u32, max_velocity: u32) -> (m: SurfaceToAirMissile)
        requires
            velocity <= max_velocity,
        ensures
            m == (SurfaceToAirMissile { time_to_live, acceleration, velocity, max_velocity }),
            m.wf(),
    {
        SurfaceToAirMissile { time_to_live, acceleration, velocity, max_velocity }
    }

    /// One tick of guidance, given whether the weak target reference still
    /// resolved. An unresolved target drops the missile untouched; an expired
    /// budget ends the flight; otherwise the countdown and the speed ramp
    /// advance.
    pub fn guidance_tick(&mut self, target_resolved: bool, delta_ms: u64) -> (s: MissileStep)
        requires
            old(self).acceleration * delta_ms <= u64::MAX,
        ensures
            !target_resolved ==> s is Orphaned && *final(self) == *old(self),
            target_resolved && ttl_step(old(self).time_to_live, delta_ms).1 ==> {
                &&& s is Expired
                &&& final(self).time_to_live == 0
                &&& final(self).velocity == old(self).velocity
            },
            target_resolved && !ttl_step(old(self).time_to_live, delta_ms).1 ==> {
                &&& s is Flying
                &&& Some(final(self).time_to_live) == ttl_step(old(self).time_to_live, delta_ms).0
                &&& final(self).velocity == speed_after(
                    old(self).velocity as int,
                    old(self).acceleration as int,
                    old(self).max_velocity as int,
                    delta_ms as int,
                )
            },
            final(self).acceleration == old(self).acceleration,
            final(self).max_velocity == old(self).max_velocity,
            old(self).wf() ==> final(self).wf(),
    {
        if !target_resolved {
            return MissileStep::Orphaned;
        }
        if self.time_to_live <= delta_ms {
            self.time_to_live = 0;
            return MissileStep::Expired;
        }
        self.time_to_live = self.time_to_live - delta_ms;
        let gain: u64 = (self.acceleration as u64) * delta_ms / 1000;
        let ramped: u64 = self.velocity as u64 + gain;
        if ramped <= self.max_velocity as u64 {
            self.velocity = ramped as u32;
        } else {
            self.velocity = self.max_velocity;
        }
        MissileStep::Flying
    }
}

/// Law: while the target stays resolved, the speed is non-decreasing from
/// tick to tick until it reaches the top speed, and once there it stays
/// clamped there.
pub proof fn lemma_speed_ramp_monotonic(velocity: int, acceleration: int, max_velocity: int, delta_ms: int)
    requires
        0 <= velocity <= max_velocity,
        acceleration >= 0,
        delta_ms >= 0,
    ensures
        velocity <= speed_after(velocity, acceleration, max_velocity, delta_ms) <= max_velocity,
        velocity == max_velocity ==> speed_after(velocity, acceleration, max_velocity, delta_ms) == max_velocity,
{
    assert(acceleration * delta_ms >= 0) by (nonlinear_arith)
        requires
            acceleration >= 0,
            delta_ms >= 0,
    ;
    assert((acceleration * delta_ms) / 1000 >= 0);
}

/// The remaining flight-time budget of a missile that may already be gone.
pub open spec fn lifetime_after(st: Option<u64>, delta_ms: u64) -> Option<u64> {
    match st {
        None => None,
        Some(t) => ttl_step(t, delta_ms).0,
    }
}

/// Whether a tick of `delta_ms` makes the missile signal its expiry.
pub open spec fn signals_expiry(st: Option<u64>, delta_ms: u64) -> bool {
    match st {
        None => false,
        Some(t) => ttl_step(t, delta_ms).1,
    }
}

/// How often a missile signals expiry over a whole run of ticks.
pub open spec fn expiry_count(st: Option<u64>, deltas: Seq<u64>) -> nat
    decreases deltas.len(),
{
    if deltas.len() == 0 {
        0
    } else {
        (if signals_expiry(st, deltas[0]) { 1nat } else { 0nat })
            + expiry_count(lifetime_after(st, deltas[0]), deltas.drop_first())
    }
}

/// Total elapsed time of a run of ticks.
pub open spec fn total_time(deltas: Seq<u64>) -> int
    decreases deltas.len(),
{
    if deltas.len() == 0 {
        0
    } else {
        deltas[0] + total_time(deltas.drop_first())
    }
}

/// A missile that is gone never signals again.
pub proof fn lemma_gone_missile_stays_silent(deltas: Seq<u64>)
    ensures
        expiry_count(None, deltas) == 0,
    decreases deltas.len(),
{
    if deltas.len() > 0 {
        lemma_gone_missile_stays_silent(deltas.drop_first());
    }
}

/// Law: a missile never signals its expiry more than once, whatever the run
/// of ticks looks like.
pub proof fn lemma_expires_at_most_once(ttl_ms: u64, deltas: Seq<u64>)
    ensures
        expiry_count(Some(ttl_ms), deltas) <= 1,
    decreases deltas.len(),
{
    if deltas.len() > 0 {
        if ttl_ms <= deltas[0] {
            lemma_gone_missile_stays_silent(deltas.drop_first());
        } else {
            lemma_expires_at_most_once((ttl_ms - deltas[0]) as u64, deltas.drop_first());
        }
    }
}

/// Law: a missile whose flight-time budget is covered by the run's total
/// elapsed time signals its expiry exactly once, never twice and never zero
/// times.
pub proof fn lemma_expires_exactly_once(ttl_ms: u64, deltas: Seq<u64>)
    requires
        ttl_ms >= 1,
        total_time(deltas) >= ttl_ms,
    ensures
        expiry_count(Some(ttl_ms), deltas) == 1,
    decreases deltas.len(),
{
    if deltas.len() > 0 {
        if ttl_ms <= deltas[0] {
            lemma_gone_missile_stays_silent(deltas.drop_first());
        } else {
            lemma_expires_exactly_once((ttl_ms - deltas[0]) as u64, deltas.drop_first());
        }
    }
}

} // verus!
