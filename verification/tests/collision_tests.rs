use bevy_turborand::GlobalRng;
use santa_sam::collisions::{
    apply_missile_santa_collision, classify_missile_santa, explosion_particle_count,
    find_missile_position, find_sam_parent, gift_house_collision_handler, level_finished_handler,
    missile_santa_collision_handler, received_gifts_handler, CollisionStarted, LevelFinished,
    SpawnExplosionAt,
};
use santa_sam::entity::EntityId;
use santa_sam::geometry::Vec3i;
use santa_sam::sam_site::SamChild;
use santa_sam::santa::{Health, SantaChild, TargetEvent, TargetEventTypes};
use santa_sam::villages::{House, HouseChild, HouseEvent, HouseEventType, VillageCenter};

fn missile_world() -> (Vec<SamChild>, Vec<SantaChild>, Vec<(EntityId, Vec3i)>) {
    let missile = EntityId(20);
    let santa = EntityId(1);
    let missile_children = vec![SamChild { collider: EntityId(21), parent: missile }];
    let santa_children = vec![SantaChild { collider: EntityId(2), parent: santa }];
    let missiles = vec![(missile, Vec3i::new(10, 20, 30))];
    (missile_children, santa_children, missiles)
}

#[test]
fn classification_works_in_either_order() {
    let (mc, sc, _) = missile_world();
    let hit = CollisionStarted(EntityId(21), EntityId(2));
    let flipped = CollisionStarted(EntityId(2), EntityId(21));
    assert_eq!(classify_missile_santa(&hit, &mc, &sc), Some((EntityId(20), EntityId(1))));
    assert_eq!(classify_missile_santa(&flipped, &mc, &sc), Some((EntityId(20), EntityId(1))));
    let unrelated = CollisionStarted(EntityId(7), EntityId(2));
    assert_eq!(classify_missile_santa(&unrelated, &mc, &sc), None);
}

#[test]
fn missile_hit_applies_damage_and_despawns_the_missile() {
    let (mut mc, sc, mut missiles) = missile_world();
    let mut health = Health::new(100);
    let collision = CollisionStarted(EntityId(2), EntityId(21));
    let explosion =
        apply_missile_santa_collision(&collision, &mut mc, &sc, &mut missiles, &mut health, 10);
    assert_eq!(explosion, Some(SpawnExplosionAt { position: Vec3i::new(10, 20, 30) }));
    assert_eq!(health.health, 90);
    assert!(missiles.is_empty());
    assert!(mc.is_empty());
}

#[test]
fn duplicate_collision_event_is_a_no_op() {
    let (mut mc, sc, mut missiles) = missile_world();
    let mut health = Health::new(100);
    let collision = CollisionStarted(EntityId(21), EntityId(2));
    apply_missile_santa_collision(&collision, &mut mc, &sc, &mut missiles, &mut health, 10);
    assert_eq!(health.health, 90);
    // the very same event again: the missile is gone, so nothing classifies
    let again =
        apply_missile_santa_collision(&collision, &mut mc, &sc, &mut missiles, &mut health, 10);
    assert_eq!(again, None);
    assert_eq!(health.health, 90);
    assert!(missiles.is_empty());
}

#[test]
fn rolled_damage_stays_in_its_range() {
    for seed in 0..20 {
        let (mut mc, sc, mut missiles) = missile_world();
        let mut health = Health::new(100);
        let mut rng = GlobalRng::with_seed(seed);
        let collision = CollisionStarted(EntityId(21), EntityId(2));
        let explosion = missile_santa_collision_handler(
            &collision,
            &mut mc,
            &sc,
            &mut missiles,
            &mut health,
            &mut rng,
        );
        assert!(explosion.is_some());
        assert!((85..=95).contains(&health.health), "health {}", health.health);
    }
}

#[test]
fn gift_hit_reports_the_house_and_despawns_the_gift() {
    let gift = EntityId(30);
    let house = EntityId(40);
    let mut gift_children = vec![SamChild { collider: EntityId(31), parent: gift }];
    let house_children = vec![HouseChild { collider: EntityId(41), parent: house }];
    let mut gifts = vec![(gift, Vec3i::new(-5, 0, 9))];
    let collision = CollisionStarted(EntityId(41), EntityId(31));
    let (explosion, event) =
        gift_house_collision_handler(&collision, &mut gift_children, &house_children, &mut gifts);
    assert_eq!(explosion, Some(SpawnExplosionAt { position: Vec3i::new(-5, 0, 9) }));
    assert_eq!(event, Some(HouseEvent(HouseEventType::ReceivedGifts(house))));
    assert!(gifts.is_empty());
    assert!(gift_children.is_empty());

    // the duplicate of the event no longer classifies
    let (explosion2, event2) =
        gift_house_collision_handler(&collision, &mut gift_children, &house_children, &mut gifts);
    assert_eq!(explosion2, None);
    assert_eq!(event2, None);
}

#[test]
fn received_gifts_stop_the_shooting_and_count_down() {
    let village_id = EntityId(50);
    let mut house = House::new(village_id);
    let mut village = VillageCenter { level: 4, needs_gifts_count: 2, needs_gifts: true };
    let event = HouseEvent(HouseEventType::ReceivedGifts(EntityId(51)));
    let (finished, target_event) = received_gifts_handler(&event, &mut house, &mut village);
    assert_eq!(finished, None);
    assert_eq!(target_event, TargetEvent(TargetEventTypes::StopShooting));
    assert_eq!(village.needs_gifts_count, 1);
    assert!(house.needs_gifts.is_none());
}

#[test]
fn finished_level_chains_into_the_next() {
    let mut sites = vec![(EntityId(60), Vec3i::new(1, 2, 3)), (EntityId(61), Vec3i::new(4, 5, 6))];
    let (load, explosions) = level_finished_handler(&LevelFinished(3), &mut sites);
    assert_eq!(load.0, 4);
    assert_eq!(
        explosions,
        vec![
            SpawnExplosionAt { position: Vec3i::new(1, 2, 3) },
            SpawnExplosionAt { position: Vec3i::new(4, 5, 6) },
        ]
    );
    assert!(sites.is_empty());
}

#[test]
fn explosion_bursts_stay_in_range_and_vary() {
    let mut rng = GlobalRng::with_seed(7);
    let mut seen = std::collections::HashSet::new();
    for _ in 0..60 {
        let n = explosion_particle_count(&mut rng);
        assert!((2..=7).contains(&n));
        seen.insert(n);
    }
    // the shared generator really drives the size: several sizes show up
    assert!(seen.len() >= 3, "sizes seen: {:?}", seen);
}

#[test]
fn lookups_find_the_first_match_only() {
    let children = vec![
        SamChild { collider: EntityId(1), parent: EntityId(10) },
        SamChild { collider: EntityId(2), parent: EntityId(20) },
    ];
    assert_eq!(find_sam_parent(&children, EntityId(2)), Some(EntityId(20)));
    assert_eq!(find_sam_parent(&children, EntityId(3)), None);
    let missiles = vec![(EntityId(5), Vec3i::new(1, 1, 1)), (EntityId(6), Vec3i::new(2, 2, 2))];
    assert_eq!(find_missile_position(&missiles, EntityId(6)), Some(Vec3i::new(2, 2, 2)));
    assert_eq!(find_missile_position(&missiles, EntityId(9)), None);
}
