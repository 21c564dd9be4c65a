use bevy_turborand::GlobalRng;
use santa_sam::collisions::LevelFinished;
use santa_sam::entity::EntityId;
use santa_sam::geometry::Vec3i;
use santa_sam::villages::{
    house_grid_offset, house_type_from_roll, houses_for_level, load_level, place_houses,
    receive_gifts, sam_sites_for_level, GameTracker, House, HouseType, LoadLevel, VillageCenter,
};

#[test]
fn level_counts_escalate() {
    assert_eq!(houses_for_level(1), 3);
    assert_eq!(houses_for_level(4), 12);
    assert_eq!(houses_for_level(10), 30);
    assert_eq!(sam_sites_for_level(1), 0);
    assert_eq!(sam_sites_for_level(3), 8);
    assert_eq!(sam_sites_for_level(10), 99);
}

#[test]
fn house_types_map_from_rolls() {
    assert_eq!(house_type_from_roll(0), HouseType::Small);
    assert_eq!(house_type_from_roll(1), HouseType::Town);
    assert_eq!(house_type_from_roll(2), HouseType::Large);
}

#[test]
fn grid_offsets_fill_rows_of_half_the_count() {
    // six houses: rows of three, all west of the center
    assert_eq!(house_grid_offset(0, 6), (-3, -3));
    assert_eq!(house_grid_offset(1, 6), (-2, -3));
    assert_eq!(house_grid_offset(2, 6), (-1, -3));
    assert_eq!(house_grid_offset(3, 6), (-3, -2));
    assert_eq!(house_grid_offset(5, 6), (-1, -2));
}

#[test]
fn placed_houses_stand_on_the_grid() {
    let center = Vec3i::new(600, -15, -300);
    let rolls = vec![0, 1, 2];
    let houses = place_houses(center, 3, &rolls);
    assert_eq!(houses.len(), 3);
    // three houses: half = 1, so every column offset is -1 and rows run -1, 0, 1
    assert_eq!(houses[0].0, Vec3i::new(570, -15, -330));
    assert_eq!(houses[1].0, Vec3i::new(570, -15, -300));
    assert_eq!(houses[2].0, Vec3i::new(570, -15, -270));
    assert_eq!(houses[0].1, HouseType::Small);
    assert_eq!(houses[1].1, HouseType::Town);
    assert_eq!(houses[2].1, HouseType::Large);
}

#[test]
fn loading_past_the_last_level_wins_the_game() {
    let mut rng = GlobalRng::with_seed(1);
    assert!(load_level(&mut rng, &LoadLevel(11), Vec3i::new(0, 0, 100)).is_none());
    assert!(load_level(&mut rng, &LoadLevel(10), Vec3i::new(0, 0, 100)).is_some());
}

#[test]
fn loaded_level_matches_its_plan() {
    let mut rng = GlobalRng::with_seed(42);
    let spawn = load_level(&mut rng, &LoadLevel(2), Vec3i::new(0, 0, 100)).unwrap();
    assert_eq!(spawn.village.level, 2);
    assert_eq!(spawn.village.needs_gifts_count, 6);
    assert!(spawn.village.needs_gifts);
    assert_eq!(spawn.houses.len(), 6);
    assert_eq!(spawn.sam_sites.len(), 3);
    // the center lies 2 to 9 steps down the given direction, scattered by the house radius
    assert_eq!(spawn.center.y, -15);
    assert!((-25..=25).contains(&spawn.center.x));
    assert!((200 - 25..=900 + 25).contains(&spawn.center.z));
    // houses relative to the center: half = 3, columns -3..-1, rows -3..-2
    for (i, (pos, _)) in spawn.houses.iter().enumerate() {
        let half = 3i32;
        let gx = (i as i32 % half) - half;
        let gz = (i as i32 / half) - half;
        assert_eq!(pos.x, spawn.center.x + gx * 30);
        assert_eq!(pos.y, spawn.center.y);
        assert_eq!(pos.z, spawn.center.z + gz * 30);
    }
    // SAM sites scatter inside the house grid's bounding box
    for site in &spawn.sam_sites {
        assert!((spawn.center.x - 90..=spawn.center.x).contains(&site.x));
        assert_eq!(site.y, spawn.center.y);
        assert!((spawn.center.z - 90..=spawn.center.z).contains(&site.z));
    }
}

#[test]
fn nine_deliveries_finish_the_level_after_the_ninth() {
    let village_id = EntityId(100);
    let mut village = VillageCenter { level: 3, needs_gifts_count: 9, needs_gifts: true };
    let mut houses: Vec<House> = (0..9).map(|_| House::new(village_id)).collect();
    let mut finishes: Vec<LevelFinished> = Vec::new();
    for (i, house) in houses.iter_mut().enumerate() {
        let fired = receive_gifts(house, &mut village);
        if i < 8 {
            assert!(fired.is_none(), "finished too early, after delivery {}", i + 1);
        } else {
            assert_eq!(fired, Some(LevelFinished(3)));
        }
        if let Some(f) = fired {
            finishes.push(f);
        }
    }
    assert_eq!(finishes.len(), 1);
    assert_eq!(village.needs_gifts_count, 0);
    assert!(!village.needs_gifts);
}

#[test]
fn a_house_is_satisfied_only_once() {
    let mut village = VillageCenter { level: 1, needs_gifts_count: 3, needs_gifts: true };
    let mut house = House::new(EntityId(1));
    assert!(receive_gifts(&mut house, &mut village).is_none());
    assert_eq!(village.needs_gifts_count, 2);
    // the same house again: already satisfied, nothing moves
    assert!(receive_gifts(&mut house, &mut village).is_none());
    assert_eq!(village.needs_gifts_count, 2);
    assert!(village.needs_gifts);
}

#[test]
fn fresh_game_tracker() {
    let g = GameTracker::new();
    assert_eq!((g.level, g.score, g.lives), (0, 0, 3));
}
