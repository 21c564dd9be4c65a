use bevy_turborand::GlobalRng;
use santa_sam::entity::EntityId;
use santa_sam::sam_site::{
    control_missile_trail, emit_missile_trail, fire_sam, spawn_sam_sites, MissileTrail,
    MissileTrailEmitter, SamSite, SamSiteParams,
};

#[test]
fn sites_spawn_on_cooldown_up_to_the_cap() {
    let mut params = SamSiteParams::new(2000, 2);
    // the fresh cooldown fires at once, then throttles
    assert!(spawn_sam_sites(&mut params, 16));
    assert_eq!(params.sam_site_count, 1);
    assert!(!spawn_sam_sites(&mut params, 1000));
    assert!(spawn_sam_sites(&mut params, 1000));
    assert_eq!(params.sam_site_count, 2);
    // at the cap: the cooldown still runs, but nothing spawns
    assert!(!spawn_sam_sites(&mut params, 5000));
    assert_eq!(params.sam_site_count, 2);
}

#[test]
fn turret_fires_at_its_rate() {
    // 12 missiles per minute: one every five seconds
    let mut site = SamSite::new(12);
    let santa = EntityId(1);
    let first = fire_sam(&mut site, santa, 16);
    let (missile, target) = first.expect("fresh turret fires at once");
    assert_eq!(target.0, santa);
    assert_eq!(missile.time_to_live, 10_000);
    assert_eq!(missile.acceleration, 50_000);
    assert_eq!(missile.velocity, 10_000);
    assert_eq!(missile.max_velocity, 60_000);
    assert!(fire_sam(&mut site, santa, 4000).is_none());
    assert!(fire_sam(&mut site, santa, 1000).is_some());
}

#[test]
fn trail_pulses_flip_direction_and_despawn_after_three() {
    let mut trail = MissileTrail::new(100, 200, 1500);
    // while growing, the puff heads for its peak scale
    let (target, despawn) = control_missile_trail(&mut trail, 40);
    assert_eq!(target, 1500);
    assert!(!despawn);
    // the pulse ends: direction flips, pulse counted, not yet enough to despawn
    let (_, despawn) = control_missile_trail(&mut trail, 60);
    assert!(!despawn);
    assert_eq!(trail.life_times, 1);
    assert_eq!(trail.scale_direction, -1);
    // a spent pulse keeps firing each tick; the third pulse allows the despawn
    let (target, despawn) = control_missile_trail(&mut trail, 10);
    assert_eq!(target, 200);
    assert!(!despawn);
    assert_eq!(trail.life_times, 2);
    let (_, despawn) = control_missile_trail(&mut trail, 10);
    assert!(despawn);
    assert_eq!(trail.life_times, 3);
}

#[test]
fn emitter_puffs_carry_rolled_scales() {
    let mut emitter = MissileTrailEmitter::new(20);
    let mut rng = GlobalRng::with_seed(3);
    let puff = emit_missile_trail(&mut emitter, &mut rng, 16).expect("fresh emitter fires");
    assert_eq!(puff.time_to_live, 500);
    assert!(puff.start_scale <= 999);
    assert!((1250..=3750).contains(&puff.max_scale));
    assert_eq!(puff.life_times, 0);
    assert_eq!(puff.scale_direction, 1);
    // throttled until the next 20 ms have passed
    assert!(emit_missile_trail(&mut emitter, &mut rng, 10).is_none());
    assert!(emit_missile_trail(&mut emitter, &mut rng, 10).is_some());
}

#[test]
fn rolled_scales_vary_with_the_generator() {
    let mut rng = GlobalRng::with_seed(11);
    let mut seen = std::collections::HashSet::new();
    for _ in 0..30 {
        let mut emitter = MissileTrailEmitter::new(20);
        if let Some(puff) = emit_missile_trail(&mut emitter, &mut rng, 20) {
            seen.insert((puff.start_scale, puff.max_scale));
        }
    }
    assert!(seen.len() > 10, "scales seen: {:?}", seen);
}
