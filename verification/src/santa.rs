//! The player agent and its engagement state machine.
//!
//! The player either needs a target or holds one. Acquisition picks the
//! nearest eligible house; while a held target resolves, its distance decides
//! whether the player is shooting; a target that no longer resolves drops the
//! state back to searching. While shooting, a fire cooldown gates the gift
//! projectiles.

use vstd::prelude::*;

use crate::constants::{
    SAM_ACCELERATION, SAM_LAUNCH_SPEED, SAM_MAX_SPEED, SAM_TIME_TO_LIVE, SANTA_MISSILE_RANGE,
    SANTA_RATE_OF_FIRE_PER_MINUTE,
};
use crate::entity::EntityId;
use crate::geometry::{dist_sq, Vec3i};
use crate::missile::SurfaceToAirMissile;
use crate::sam_site::SamTarget;
use crate::timer::CooldownTimer;

verus! {

/// Hit points of an agent.
#[derive(Clone, Copy, PartialEq, Eq, Structural, Debug)]
pub struct Health {
    pub health: i32,
}

impl Health {
    pub fn new(health: i32) -> (h: Health)
        ensures
            h == (Health { health }),
    {
        Health { health }
    }
}

/// State data of an agent that is searching: nothing to remember while no
/// target is held.
#[derive(Clone, Copy, PartialEq, Eq, Structural, Debug)]
pub struct SantaNeedsTarget;

/// State data of an agent that holds a target.
#[derive(Clone, Copy, PartialEq, Eq, Structural, Debug)]
pub struct SantaHasTarget {
    /// Weak reference to the held target; resolving it may fail.
    pub target: EntityId,
    /// Whether the target is within engagement range and being fired at.
    pub is_shooting: bool,
    /// Gate on the rate of fire while shooting.
    pub fire_timer: CooldownTimer,
}

/// The player's engagement state.
#[derive(Clone, Copy, PartialEq, Eq, Structural, Debug)]
pub enum SantaTargetState {
    NeedsTarget(SantaNeedsTarget),
    HasTarget(SantaHasTarget),
}

/// The player agent.
#[derive(Clone, Copy, PartialEq, Eq, Structural, Debug)]
pub struct Santa {
    pub health: Health,
    pub target_state: SantaTargetState,
}

impl Santa {
    /// A freshly spawned player: full health, no target yet.
    pub fn new() -> (s: Santa)
        ensures
            s.health == (Health { health: 100 }),
            s.target_state is NeedsTarget,
    {
        Santa { health: Health::new(100), target_state: SantaTargetState::NeedsTarget(SantaNeedsTarget) }
    }
}

/// Collider child of the player: the collider entity and the owner it stands
/// for, an explicit back-reference resolved by table lookup.
#[derive(Clone, Copy, PartialEq, Eq, Structural, Debug)]
pub struct SantaChild {
    pub collider: EntityId,
    pub parent: EntityId,
}

/// The collision layers the host's physics filters pairs by. Which layers may
/// touch at all is the physics side's business; the damage rules below only
/// consume pairs it reports.
#[derive(Clone, Copy, PartialEq, Eq, Structural, Debug)]
pub enum CollisionLayer {
    Santa,
    Ground,
    Solid,
    Snow,
    Nothing,
    Missile,
    House,
    Gift,
}

/// Whether a projectile layer hitting a target layer is one of the known
/// damage rules: a missile hurts the player, a gift satisfies a house. Every
/// other pair is ignored by collision resolution.
pub fn damage_rule(projectile: CollisionLayer, target: CollisionLayer) -> (r: bool)
    ensures
        r == ((projectile is Missile && target is Santa) || (projectile is Gift
            && target is House)),
{
    match (projectile, target) {
        (CollisionLayer::Missile, CollisionLayer::Santa) => true,
        (CollisionLayer::Gift, CollisionLayer::House) => true,
        _ => false,
    }
}

/// What the engagement machine announces to the rest of the game.
#[derive(Clone, Copy, PartialEq, Eq, Structural, Debug)]
pub enum TargetEventTypes {
    Acquired(EntityId),
    Lost,
    StartShooting,
    StopShooting,
}

#[derive(Clone, Copy, PartialEq, Eq, Structural, Debug)]
pub struct TargetEvent(pub TargetEventTypes);

/// The fire cooldown a newly acquired target starts with: it has never been
/// throttled, so the first shot comes at once.
pub open spec fn fresh_fire_timer() -> CooldownTimer {
    CooldownTimer { remaining_ms: 0, interval_ms: 60_000u64 / SANTA_RATE_OF_FIRE_PER_MINUTE as u64 }
}

/// The state right after acquiring `target`: held, not yet shooting.
pub open spec fn acquired_state(target: EntityId) -> SantaTargetState {
    SantaTargetState::HasTarget(SantaHasTarget { target, is_shooting: false, fire_timer: fresh_fire_timer() })
}

/// `i` points at the eligible target nearest to `from`, and at the first of
/// the nearest ones in listing order.
pub open spec fn is_first_nearest(targets: Seq<(EntityId, Vec3i)>, from: Vec3i, i: int) -> bool {
    &&& 0 <= i < targets.len()
    &&& forall|j: int|
        0 <= j < targets.len() ==> #[trigger] dist_sq(from, targets[j].1) >= dist_sq(from, targets[i].1)
    &&& forall|j: int| 0 <= j < i ==> #[trigger] dist_sq(from, targets[j].1) > dist_sq(from, targets[i].1)
}

/// Acquisition: pick the eligible target with the smallest Euclidean distance
/// to the agent; ties go to the first one encountered. With nothing eligible
/// the agent keeps searching and nothing is announced.
pub fn search_for_targets(santa_pos: Vec3i, targets: &Vec<(EntityId, Vec3i)>) -> (r: (
    SantaTargetState,
    Option<TargetEvent>,
))
    ensures
        targets@.len() == 0 ==> r == (
            SantaTargetState::NeedsTarget(SantaNeedsTarget),
            None::<TargetEvent>,
        ),
        targets@.len() > 0 ==> exists|i: int|
            {
                &&& #[trigger] is_first_nearest(targets@, santa_pos, i)
                &&& r.0 == acquired_state(targets@[i].0)
                &&& r.1 == Some(TargetEvent(TargetEventTypes::Acquired(targets@[i].0)))
            },
{
    if targets.len() == 0 {
        return (SantaTargetState::NeedsTarget(SantaNeedsTarget), None);
    }
    let mut best: usize = 0;
    let mut best_d: i128 = santa_pos.distance_squared(&targets[0].1);
    let mut k: usize = 1;
    while k < targets.len()
        invariant
            1 <= k <= targets@.len(),
            best < k,
            best_d == dist_sq(santa_pos, targets@[best as int].1),
            forall|j: int| 0 <= j < k ==> #[trigger] dist_sq(santa_pos, targets@[j].1) >= best_d,
            forall|j: int| 0 <= j < best ==> #[trigger] dist_sq(santa_pos, targets@[j].1) > best_d,
        decreases targets@.len() - k,
    {
        let d = santa_pos.distance_squared(&targets[k].1);
        if d < best_d {
            best = k;
            best_d = d;
        }
        k = k + 1;
    }
    let chosen = targets[best].0;
    proof {
        assert(is_first_nearest(targets@, santa_pos, best as int));
    }
    let timer = CooldownTimer::new(60_000u64 / SANTA_RATE_OF_FIRE_PER_MINUTE as u64);
    (
        SantaTargetState::HasTarget(SantaHasTarget { target: chosen, is_shooting: false, fire_timer: timer }),
        Some(TargetEvent(TargetEventTypes::Acquired(chosen))),
    )
}

/// Tracking: resolve the held target and compare its distance with the
/// engagement range. A target that fails to resolve always drops the state
/// back to searching, whatever the shooting flag was; a resolved one keeps
/// the state and announces whether the range test passed. The same threshold
/// gates both directions: there is no hysteresis band.
pub fn track_target(state: SantaHasTarget, santa_pos: Vec3i, target_pos: Option<Vec3i>) -> (r: (
    SantaTargetState,
    TargetEvent,
))
    ensures
        target_pos is None ==> r == (
            SantaTargetState::NeedsTarget(SantaNeedsTarget),
            TargetEvent(TargetEventTypes::Lost),
        ),
        target_pos matches Some(tp) && dist_sq(santa_pos, tp) < SANTA_MISSILE_RANGE * SANTA_MISSILE_RANGE
            ==> r == (SantaTargetState::HasTarget(state), TargetEvent(TargetEventTypes::StartShooting)),
        target_pos matches Some(tp) && dist_sq(santa_pos, tp) >= SANTA_MISSILE_RANGE * SANTA_MISSILE_RANGE
            ==> r == (SantaTargetState::HasTarget(state), TargetEvent(TargetEventTypes::StopShooting)),
{
    match target_pos {
        None => (SantaTargetState::NeedsTarget(SantaNeedsTarget), TargetEvent(TargetEventTypes::Lost)),
        Some(tp) => {
            let d = santa_pos.distance_squared(&tp);
            let range_sq: i128 = (SANTA_MISSILE_RANGE * SANTA_MISSILE_RANGE) as i128;
            if d < range_sq {
                (SantaTargetState::HasTarget(state), TargetEvent(TargetEventTypes::StartShooting))
            } else {
                (SantaTargetState::HasTarget(state), TargetEvent(TargetEventTypes::StopShooting))
            }
        },
    }
}

/// Apply an announcement to the shooting flag: shooting exactly while the
/// latest announcement was the start of an engagement.
pub fn toggle_santa_shooting(state: &mut SantaHasTarget, event: &TargetEvent)
    ensures
        final(state).target == old(state).target,
        final(state).fire_timer == old(state).fire_timer,
        final(state).is_shooting == (event.0 is StartShooting),
{
    match event.0 {
        TargetEventTypes::StartShooting => {
            state.is_shooting = true;
        },
        TargetEventTypes::StopShooting => {
            state.is_shooting = false;
        },
        _ => {
            state.is_shooting = false;
        },
    }
}

/// While shooting, each firing of the cooldown launches one gift projectile
/// at the held target; otherwise the cooldown stands still and nothing is
/// launched.
pub fn shoot_gifts_at_target(state: &mut SantaHasTarget, delta_ms: u64) -> (r: Option<
    (SurfaceToAirMissile, SamTarget),
>)
    ensures
        final(state).target == old(state).target,
        final(state).is_shooting == old(state).is_shooting,
        !old(state).is_shooting ==> r is None && final(state).fire_timer == old(state).fire_timer,
        old(state).is_shooting ==> {
            let (t, fired) = old(state).fire_timer.tick_spec(delta_ms);
            &&& final(state).fire_timer == t
            &&& fired ==> r == Some((crate::missile::launched_missile(), SamTarget(old(state).target)))
            &&& !fired ==> r is None
        },
{
    if !state.is_shooting {
        return None;
    }
    if state.fire_timer.tick(delta_ms) {
        let missile = SurfaceToAirMissile::new(SAM_TIME_TO_LIVE, SAM_ACCELERATION, SAM_LAUNCH_SPEED, SAM_MAX_SPEED);
        Some((missile, SamTarget(state.target)))
    } else {
        None
    }
}

} // verus!
