//! SAM sites: spawning, firing, and the trail puffs behind their missiles.

use vstd::prelude::*;

use bevy_turborand::GlobalRng;

use crate::constants::{
    SAM_ACCELERATION, SAM_LAUNCH_SPEED, SAM_MAX_SPEED, SAM_TIME_TO_LIVE,
};
use crate::entity::EntityId;
use crate::missile::{launched_missile, SurfaceToAirMissile};
use crate::rng::rng_u32;
use crate::timer::CooldownTimer;

verus! {

/// Scheduler for bringing new SAM sites into the world: a spawn cooldown and
/// a cap on how many sites exist at once.
#[derive(Clone, Copy, PartialEq, Eq, Structural, Debug)]
pub struct SamSiteParams {
    pub timer: CooldownTimer,
    pub max_sam_sites: u32,
    pub sam_site_count: u32,
}

impl SamSiteParams {
    pub fn new(cool_down_ms: u64, max_sam_sites: u32) -> (p: SamSiteParams)
        ensures
            p == (SamSiteParams {
                timer: CooldownTimer { remaining_ms: 0, interval_ms: cool_down_ms },
                max_sam_sites,
                sam_site_count: 0,
            }),
    {
        SamSiteParams { timer: CooldownTimer::new(cool_down_ms), max_sam_sites, sam_site_count: 0 }
    }
}

/// Decide whether a new SAM site spawns this tick: the cooldown must fire
/// while the site count is still under its cap. The cooldown counts down
/// every tick either way; a spawn is counted at once.
pub fn spawn_sam_sites(params: &mut SamSiteParams, delta_ms: u64) -> (spawn: bool)
    ensures
        final(params).timer == old(params).timer.tick_spec(delta_ms).0,
        final(params).max_sam_sites == old(params).max_sam_sites,
        spawn == (old(params).timer.tick_spec(delta_ms).1
            && old(params).sam_site_count < old(params).max_sam_sites),
        spawn ==> final(params).sam_site_count == old(params).sam_site_count + 1,
        !spawn ==> final(params).sam_site_count == old(params).sam_site_count,
{
    let fired = params.timer.tick(delta_ms);
    if fired && params.sam_site_count < params.max_sam_sites {
        params.sam_site_count = params.sam_site_count + 1;
        true
    } else {
        false
    }
}

/// A missile turret. Its rate of fire fixes the interval of its cooldown.
#[derive(Clone, Copy, PartialEq, Eq, Structural, Debug)]
pub struct SamSite {
    pub rate_of_fire_per_minute: u32,
    pub fire_timer: CooldownTimer,
}

impl SamSite {
    pub fn new(rate_of_fire_per_minute: u32) -> (s: SamSite)
        requires
            rate_of_fire_per_minute >= 1,
        ensures
            s == (SamSite {
                rate_of_fire_per_minute,
                fire_timer: CooldownTimer {
                    remaining_ms: 0,
                    interval_ms: 60_000u64 / rate_of_fire_per_minute as u64,
                },
            }),
    {
        SamSite {
            rate_of_fire_per_minute,
            fire_timer: CooldownTimer::new(60_000u64 / rate_of_fire_per_minute as u64),
        }
    }
}

/// Weak reference from a missile to the entity it homes on.
#[derive(Clone, Copy, PartialEq, Eq, Structural, Debug)]
pub struct SamTarget(pub EntityId);

/// Collider child of a missile or gift projectile: the collider entity and
/// the owner it stands for, an explicit back-reference resolved by table
/// lookup.
#[derive(Clone, Copy, PartialEq, Eq, Structural, Debug)]
pub struct SamChild {
    pub collider: EntityId,
    pub parent: EntityId,
}

/// Each firing of the turret's cooldown launches one missile homing on the
/// given target.
pub fn fire_sam(site: &mut SamSite, target: EntityId, delta_ms: u64) -> (r: Option<
    (SurfaceToAirMissile, SamTarget),
>)
    ensures
        final(site).rate_of_fire_per_minute == old(site).rate_of_fire_per_minute,
        final(site).fire_timer == old(site).fire_timer.tick_spec(delta_ms).0,
        old(site).fire_timer.tick_spec(delta_ms).1 ==> r == Some((launched_missile(), SamTarget(target))),
        !old(site).fire_timer.tick_spec(delta_ms).1 ==> r is None,
{
    if site.fire_timer.tick(delta_ms) {
        let missile = SurfaceToAirMissile::new(SAM_TIME_TO_LIVE, SAM_ACCELERATION, SAM_LAUNCH_SPEED, SAM_MAX_SPEED);
        Some((missile, SamTarget(target)))
    } else {
        None
    }
}

/// Emits a trail puff behind a flying missile whenever its cooldown fires.
#[derive(Clone, Copy, PartialEq, Eq, Structural, Debug)]
pub struct MissileTrailEmitter {
    pub timer: CooldownTimer,
}

impl MissileTrailEmitter {
    pub fn new(cool_down_ms: u64) -> (e: MissileTrailEmitter)
        ensures
            e == (MissileTrailEmitter { timer: CooldownTimer { remaining_ms: 0, interval_ms: cool_down_ms } }),
    {
        MissileTrailEmitter { timer: CooldownTimer::new(cool_down_ms) }
    }

    pub fn cool_down(&mut self, delta_ms: u64) -> (fired: bool)
        ensures
            (final(self).timer, fired) == old(self).timer.tick_spec(delta_ms),
    {
        self.timer.tick(delta_ms)
    }
}

/// A short-lived trail puff: a decaying particle that pulses its scale
/// between a start and a peak value until it has lived through enough
/// pulses to despawn. Scales are in thousandths of a world unit.
#[derive(Clone, Copy, PartialEq, Eq, Structural, Debug)]
pub struct MissileTrail {
    /// Milliseconds left in the current pulse.
    pub time_to_live: u64,
    /// Scale the puff shrinks back to, milli-units.
    pub start_scale: u32,
    /// Scale the puff grows toward, milli-units.
    pub max_scale: u32,
    /// Pulses lived through so far.
    pub life_times: u32,
    /// Whether the puff is currently growing (+1) or shrinking (-1).
    pub scale_direction: i8,
}

impl MissileTrail {
    /// The pulse direction is always one of the two signs.
    pub open spec fn wf(self) -> bool {
        self.scale_direction == 1i8 || self.scale_direction == -1i8
    }

    pub fn new(time_to_live: u64, start_scale: u32, max_scale: u32) -> (t: MissileTrail)
        ensures
            t == (MissileTrail { time_to_live, start_scale, max_scale, life_times: 0, scale_direction: 1i8 }),
            t.wf(),
    {
        MissileTrail { time_to_live, start_scale, max_scale, life_times: 0, scale_direction: 1i8 }
    }

    /// What one tick does to a puff: using up the pulse time ends a pulse,
    /// which counts it, flips the growth direction and reports it; otherwise
    /// the pulse just counts down.
    pub open spec fn tick_spec(self, delta_ms: u64) -> (MissileTrail, bool) {
        if self.time_to_live <= delta_ms {
            (
                MissileTrail {
                    time_to_live: 0,
                    life_times: (self.life_times + 1) as u32,
                    scale_direction: (-self.scale_direction) as i8,
                    ..self
                },
                true,
            )
        } else {
            (MissileTrail { time_to_live: (self.time_to_live - delta_ms) as u64, ..self }, false)
        }
    }

    pub fn cool_down(&mut self, delta_ms: u64) -> (fired: bool)
        requires
            old(self).wf(),
            old(self).life_times < u32::MAX,
        ensures
            (*final(self), fired) == old(self).tick_spec(delta_ms),
            final(self).wf(),
    {
        if self.time_to_live <= delta_ms {
            self.time_to_live = 0;
            self.life_times = self.life_times + 1;
            self.scale_direction = -self.scale_direction;
            true
        } else {
            self.time_to_live = self.time_to_live - delta_ms;
            false
        }
    }
}

/// One tick of a trail puff: report the scale it is currently heading for,
/// and whether it has finished enough pulses to despawn.
pub fn control_missile_trail(trail: &mut MissileTrail, delta_ms: u64) -> (r: (u32, bool))
    requires
        old(trail).wf(),
        old(trail).life_times < u32::MAX,
    ensures
        *final(trail) == old(trail).tick_spec(delta_ms).0,
        final(trail).wf(),
        r.0 == (if old(trail).scale_direction > 0 {
            old(trail).max_scale
        } else {
            old(trail).start_scale
        }),
        r.1 == (old(trail).tick_spec(delta_ms).1 && old(trail).tick_spec(delta_ms).0.life_times > 2),
{
    let target_scale = if trail.scale_direction > 0 {
        trail.max_scale
    } else {
        trail.start_scale
    };
    let fired = trail.cool_down(delta_ms);
    (target_scale, fired && trail.life_times > 2)
}

/// When the emitter's cooldown fires, a new trail puff appears with a half
/// second pulse and randomly drawn scales: the start scale under one world
/// unit, the peak scale between 1.25 and 3.75 units.
pub fn emit_missile_trail(emitter: &mut MissileTrailEmitter, rng: &mut GlobalRng, delta_ms: u64) -> (r:
    Option<MissileTrail>)
    ensures
        (final(emitter).timer, r is Some) == old(emitter).timer.tick_spec(delta_ms),
        r matches Some(t) ==> {
            &&& t.time_to_live == 500
            &&& t.start_scale <= 999
            &&& 1250 <= t.max_scale <= 3750
            &&& t.life_times == 0
            &&& t.wf()
        },
{
    if emitter.cool_down(delta_ms) {
        let start_scale = rng_u32(rng, 0, 999);
        let max_scale = rng_u32(rng, 1250, 3750);
        Some(MissileTrail::new(500, start_scale, max_scale))
    } else {
        None
    }
}

} // verus!
