use santa_sam::entity::EntityId;
use santa_sam::geometry::Vec3i;
use santa_sam::santa::{
    damage_rule, search_for_targets, shoot_gifts_at_target, toggle_santa_shooting, track_target,
    CollisionLayer, Santa, SantaHasTarget, SantaTargetState, TargetEvent, TargetEventTypes,
};
use santa_sam::timer::CooldownTimer;

fn held(target: EntityId, is_shooting: bool) -> SantaHasTarget {
    SantaHasTarget { target, is_shooting, fire_timer: CooldownTimer::new(3000) }
}

#[test]
fn acquisition_picks_the_nearest_target() {
    // agent at the origin; eligible targets at distances 5, 3 and 8
    let targets = vec![
        (EntityId(1), Vec3i::new(5, 0, 0)),
        (EntityId(2), Vec3i::new(0, 3, 0)),
        (EntityId(3), Vec3i::new(0, 0, 8)),
    ];
    let (state, event) = search_for_targets(Vec3i::new(0, 0, 0), &targets);
    match state {
        SantaTargetState::HasTarget(h) => {
            assert_eq!(h.target, EntityId(2));
            assert!(!h.is_shooting);
        }
        SantaTargetState::NeedsTarget(_) => panic!("a target was available"),
    }
    assert_eq!(event, Some(TargetEvent(TargetEventTypes::Acquired(EntityId(2)))));
}

#[test]
fn acquisition_breaks_ties_by_listing_order() {
    let targets = vec![
        (EntityId(10), Vec3i::new(4, 0, 0)),
        (EntityId(11), Vec3i::new(0, 4, 0)),
    ];
    let (state, _) = search_for_targets(Vec3i::new(0, 0, 0), &targets);
    match state {
        SantaTargetState::HasTarget(h) => assert_eq!(h.target, EntityId(10)),
        SantaTargetState::NeedsTarget(_) => panic!("a target was available"),
    }
}

#[test]
fn acquisition_with_no_targets_keeps_searching() {
    let targets: Vec<(EntityId, Vec3i)> = Vec::new();
    let (state, event) = search_for_targets(Vec3i::new(1, 2, 3), &targets);
    assert!(matches!(state, SantaTargetState::NeedsTarget(_)));
    assert_eq!(event, None);
}

#[test]
fn unresolved_target_always_drops_to_needs_target() {
    // whatever the shooting flag was, a dangling reference resets the state
    for was_shooting in [false, true] {
        let (state, event) = track_target(held(EntityId(9), was_shooting), Vec3i::new(0, 0, 0), None);
        assert!(matches!(state, SantaTargetState::NeedsTarget(_)));
        assert_eq!(event, TargetEvent(TargetEventTypes::Lost));
    }
}

#[test]
fn range_threshold_decides_shooting_both_ways() {
    let santa = Vec3i::new(0, 0, 0);
    let near = Some(Vec3i::new(149, 0, 0));
    let at_range = Some(Vec3i::new(150, 0, 0));
    let (_, ev_near) = track_target(held(EntityId(4), false), santa, near);
    assert_eq!(ev_near, TargetEvent(TargetEventTypes::StartShooting));
    let (_, ev_far) = track_target(held(EntityId(4), true), santa, at_range);
    assert_eq!(ev_far, TargetEvent(TargetEventTypes::StopShooting));
}

#[test]
fn toggle_follows_the_announcements() {
    let mut h = held(EntityId(5), false);
    toggle_santa_shooting(&mut h, &TargetEvent(TargetEventTypes::StartShooting));
    assert!(h.is_shooting);
    toggle_santa_shooting(&mut h, &TargetEvent(TargetEventTypes::StopShooting));
    assert!(!h.is_shooting);
    h.is_shooting = true;
    toggle_santa_shooting(&mut h, &TargetEvent(TargetEventTypes::Acquired(EntityId(5))));
    assert!(!h.is_shooting);
}

#[test]
fn shooting_launches_on_the_cooldown() {
    let mut h = held(EntityId(6), true);
    // the fresh cooldown fires at once
    let first = shoot_gifts_at_target(&mut h, 16);
    let (missile, target) = first.expect("first shot comes at once");
    assert_eq!(target.0, EntityId(6));
    assert_eq!(missile.time_to_live, 10_000);
    assert_eq!(missile.velocity, 10_000);
    assert_eq!(missile.max_velocity, 60_000);
    // then the rate of fire throttles
    assert!(shoot_gifts_at_target(&mut h, 1000).is_none());
    assert!(shoot_gifts_at_target(&mut h, 2000).is_some());
}

#[test]
fn not_shooting_never_launches() {
    let mut h = held(EntityId(6), false);
    for _ in 0..5 {
        assert!(shoot_gifts_at_target(&mut h, 10_000).is_none());
    }
}

#[test]
fn fresh_player_needs_a_target() {
    let s = Santa::new();
    assert_eq!(s.health.health, 100);
    assert!(matches!(s.target_state, SantaTargetState::NeedsTarget(_)));
}

#[test]
fn damage_rules_cover_exactly_the_two_pairs() {
    assert!(damage_rule(CollisionLayer::Missile, CollisionLayer::Santa));
    assert!(damage_rule(CollisionLayer::Gift, CollisionLayer::House));
    assert!(!damage_rule(CollisionLayer::Missile, CollisionLayer::House));
    assert!(!damage_rule(CollisionLayer::Gift, CollisionLayer::Santa));
    assert!(!damage_rule(CollisionLayer::Santa, CollisionLayer::Missile));
}
