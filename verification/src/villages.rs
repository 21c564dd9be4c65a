//! Villages, houses, and level progression.
//!
//! A level places one village: a center scattered near a point the caller
//! picks, a grid of houses around it, and a batch of SAM sites inside the
//! grid's bounding box. Each house needs gifts once; the village counts the
//! houses still waiting, and the level finishes when that count reaches zero.

use vstd::prelude::*;

use bevy_turborand::GlobalRng;

use crate::collisions::LevelFinished;
use crate::constants::{GROUND_PLANE, HOUSE_GRID_STEP, HOUSE_RADIUS, LAST_LEVEL};
use crate::entity::EntityId;
use crate::geometry::Vec3i;
use crate::rng::{rng_i32, rng_u32};

verus! {

/// Request to build the given level.
#[derive(Clone, Copy, PartialEq, Eq, Structural, Debug)]
pub struct LoadLevel(pub u32);

/// What can happen to a house.
#[derive(Clone, Copy, PartialEq, Eq, Structural, Debug)]
pub enum HouseEventType {
    /// The house with this handle received its gifts.
    ReceivedGifts(EntityId),
}

#[derive(Clone, Copy, PartialEq, Eq, Structural, Debug)]
pub struct HouseEvent(pub HouseEventType);

/// Running score of the whole game.
#[derive(Clone, Copy, PartialEq, Eq, Structural, Debug)]
pub struct GameTracker {
    pub level: u32,
    pub score: u32,
    pub lives: u32,
}

impl GameTracker {
    /// A fresh game: nothing played yet, three lives.
    pub fn new() -> (g: GameTracker)
        ensures
            g == (GameTracker { level: 0, score: 0, lives: 3 }),
    {
        GameTracker { level: 0, score: 0, lives: 3 }
    }
}

/// The center of a village: counts the houses still waiting for gifts.
#[derive(Clone, Copy, PartialEq, Eq, Structural, Debug)]
pub struct VillageCenter {
    pub level: u32,
    pub needs_gifts_count: i32,
    pub needs_gifts: bool,
}

/// Marker held by a house that still waits for its gifts; dropping it is what
/// satisfies the house, exactly once.
#[derive(Clone, Copy, PartialEq, Eq, Structural, Debug)]
pub struct NeedsGifts;

/// A delivery point. It keeps a back-reference to its owning village, never
/// the other way around.
#[derive(Clone, Copy, Debug)]
pub struct House {
    pub belongs_to_village: EntityId,
    pub needs_gifts: Option<NeedsGifts>,
}

impl House {
    /// A new house starts waiting for gifts.
    pub fn new(belongs_to_village: EntityId) -> (h: House)
        ensures
            h.belongs_to_village == belongs_to_village,
            h.needs_gifts is Some,
    {
        House { belongs_to_village, needs_gifts: Some(NeedsGifts) }
    }
}

/// Collider child of a house: the collider entity and the owner it stands
/// for, an explicit back-reference resolved by table lookup.
#[derive(Clone, Copy, PartialEq, Eq, Structural, Debug)]
pub struct HouseChild {
    pub collider: EntityId,
    pub parent: EntityId,
}

/// The three house models a roll can pick.
#[derive(Clone, Copy, PartialEq, Eq, Structural, Debug)]
pub enum HouseType {
    Small,
    Town,
    Large,
}

/// Which house model a roll stands for.
pub open spec fn house_type_spec(roll: u32) -> HouseType {
    if roll == 0 {
        HouseType::Small
    } else if roll == 1 {
        HouseType::Town
    } else {
        HouseType::Large
    }
}

/// Map a roll to its house model. A roll outside the three known models
/// breaks the caller's contract, so it is ruled out rather than handled.
pub fn house_type_from_roll(roll: u32) -> (t: HouseType)
    requires
        roll < 3,
    ensures
        t == house_type_spec(roll),
{
    if roll == 0 {
        HouseType::Small
    } else if roll == 1 {
        HouseType::Town
    } else {
        HouseType::Large
    }
}

/// How many houses the given level places.
pub fn houses_for_level(level: u32) -> (n: u32)
    requires
        1 <= level <= LAST_LEVEL,
    ensures
        n == 3 * level,
{
    level * 2 + level
}

/// How many SAM sites the given level places.
pub fn sam_sites_for_level(level: u32) -> (n: u32)
    requires
        1 <= level <= LAST_LEVEL,
    ensures
        n == level * level - 1,
{
    proof {
        assert(1 <= level * level <= 100) by (nonlinear_arith)
            requires
                1 <= level <= 10,
        ;
    }
    level * level - 1
}

/// Column of house `n` in the village grid, in grid steps.
pub open spec fn grid_x(n: int, count: int) -> int {
    n % (count / 2) - count / 2
}

/// Row of house `n` in the village grid, in grid steps.
pub open spec fn grid_z(n: int, count: int) -> int {
    n / (count / 2) - count / 2
}

/// Grid offset of house `n` among `count`, in grid steps.
pub fn house_grid_offset(n: u32, count: u32) -> (p: (i32, i32))
    requires
        2 <= count <= 30,
        n < count,
    ensures
        p.0 == grid_x(n as int, count as int),
        p.1 == grid_z(n as int, count as int),
        -15 <= p.0 <= 15,
        -15 <= p.1 <= 30,
{
    let half = count / 2;
    ((n % half) as i32 - half as i32, (n / half) as i32 - half as i32)
}

/// The house positions and models of one village: a grid around the center,
/// one house per roll, all on the center's height.
pub fn place_houses(center: Vec3i, count: u32, rolls: &Vec<u32>) -> (houses: Vec<(Vec3i, HouseType)>)
    requires
        2 <= count <= 30,
        rolls@.len() == count,
        forall|i: int| 0 <= i < rolls@.len() ==> rolls@[i] < 3,
        -1_000_000 <= center.x <= 1_000_000,
        -1_000_000 <= center.z <= 1_000_000,
    ensures
        houses@.len() == count,
        forall|i: int|
            0 <= i < count ==> {
                &&& (#[trigger] houses@[i]).0.x == center.x + grid_x(i, count as int) * HOUSE_GRID_STEP
                &&& houses@[i].0.y == center.y
                &&& houses@[i].0.z == center.z + grid_z(i, count as int) * HOUSE_GRID_STEP
                &&& houses@[i].1 == house_type_spec(rolls@[i])
            },
{
    let mut houses: Vec<(Vec3i, HouseType)> = Vec::new();
    let mut n: u32 = 0;
    while n < count
        invariant
            n <= count,
            2 <= count <= 30,
            rolls@.len() == count,
            forall|i: int| 0 <= i < rolls@.len() ==> rolls@[i] < 3,
            -1_000_000 <= center.x <= 1_000_000,
            -1_000_000 <= center.z <= 1_000_000,
            houses@.len() == n,
            forall|i: int|
                0 <= i < n ==> {
                    &&& (#[trigger] houses@[i]).0.x == center.x + grid_x(i, count as int) * HOUSE_GRID_STEP
                    &&& houses@[i].0.y == center.y
                    &&& houses@[i].0.z == center.z + grid_z(i, count as int) * HOUSE_GRID_STEP
                    &&& houses@[i].1 == house_type_spec(rolls@[i])
                },
        decreases count - n,
    {
        let (gx, gz) = house_grid_offset(n, count);
        let pos = Vec3i::new(
            center.x + gx * HOUSE_GRID_STEP,
            center.y,
            center.z + gz * HOUSE_GRID_STEP,
        );
        let t = house_type_from_roll(rolls[n as usize]);
        houses.push((pos, t));
        n = n + 1;
    }
    houses
}

/// Everything one level brings into the world.
pub struct VillageSpawn {
    /// Where the village stands.
    pub center: Vec3i,
    /// Its gift countdown, full.
    pub village: VillageCenter,
    /// House positions and models.
    pub houses: Vec<(Vec3i, HouseType)>,
    /// SAM site positions, scattered in the house grid's bounding box.
    pub sam_sites: Vec<Vec3i>,
}

/// Half the house count: the grid's extent in steps.
pub open spec fn village_grid_half(level: int) -> int {
    3 * level / 2
}

/// The largest row offset of the grid, in world units, floored at the center.
pub open spec fn village_hi_z(level: int) -> int {
    let m = ((3 * level - 1) / village_grid_half(level) - village_grid_half(level)) * HOUSE_GRID_STEP;
    if m > 0 {
        m
    } else {
        0
    }
}

/// Where the village center lands for a step vector `dir`, a step count `s`
/// and a ground scatter `(jx, jz)`.
pub open spec fn village_center_from(dir: Vec3i, s: int, jx: int, jz: int) -> Vec3i {
    Vec3i { x: (dir.x * s + jx) as i32, y: GROUND_PLANE, z: (dir.z * s + jz) as i32 }
}

/// Build one level, or report the game won.
///
/// `dir` is one spawn-distance step toward where the new village should lie
/// (the caller derives it from the player's facing). The village center lands
/// 2 to 9 steps out, scattered by up to the house radius on each ground axis;
/// the houses form their grid around it, and `level*level - 1` SAM sites are
/// scattered in the grid's bounding box. A level past the last one builds
/// nothing: the game is won.
pub fn load_level(rng: &mut GlobalRng, load: &LoadLevel, dir: Vec3i) -> (r: Option<VillageSpawn>)
    requires
        load.0 >= 1,
        -1000 <= dir.x <= 1000,
        -1000 <= dir.z <= 1000,
    ensures
        r is None <==> load.0 > LAST_LEVEL,
        r matches Some(v) ==> {
            let level = load.0 as int;
            let count = 3 * level;
            &&& exists|s: int, jx: int, jz: int|
                {
                    &&& 2 <= s <= 9
                    &&& -HOUSE_RADIUS <= jx <= HOUSE_RADIUS
                    &&& -HOUSE_RADIUS <= jz <= HOUSE_RADIUS
                    &&& v.center == #[trigger] village_center_from(dir, s, jx, jz)
                }
            &&& v.village == (VillageCenter {
                level: load.0,
                needs_gifts_count: count as i32,
                needs_gifts: true,
            })
            &&& v.houses@.len() == count
            &&& forall|i: int|
                0 <= i < count ==> {
                    &&& (#[trigger] v.houses@[i]).0.x == v.center.x + grid_x(i, count) * HOUSE_GRID_STEP
                    &&& v.houses@[i].0.y == v.center.y
                    &&& v.houses@[i].0.z == v.center.z + grid_z(i, count) * HOUSE_GRID_STEP
                }
            &&& v.sam_sites@.len() == level * level - 1
            &&& forall|k: int|
                0 <= k < v.sam_sites@.len() ==> {
                    &&& v.center.x - village_grid_half(level) * HOUSE_GRID_STEP <= (
                    #[trigger] v.sam_sites@[k]).x <= v.center.x
                    &&& v.sam_sites@[k].y == v.center.y
                    &&& v.center.z - village_grid_half(level) * HOUSE_GRID_STEP <= v.sam_sites@[k].z
                        <= v.center.z + village_hi_z(level)
                }
        },
{
    if load.0 > LAST_LEVEL {
        return None;
    }
    let level = load.0;
    let count = houses_for_level(level);
    let sam_count = sam_sites_for_level(level);

    let steps = rng_u32(rng, 2, 9) as i32;
    let jx = rng_i32(rng, -HOUSE_RADIUS, HOUSE_RADIUS);
    let jz = rng_i32(rng, -HOUSE_RADIUS, HOUSE_RADIUS);
    proof {
        assert(-9000 <= dir.x * steps <= 9000 && -9000 <= dir.z * steps <= 9000)
            by (nonlinear_arith)
            requires
                -1000 <= dir.x <= 1000,
                -1000 <= dir.z <= 1000,
                2 <= steps <= 9,
        ;
    }
    let center = Vec3i::new(dir.x * steps + jx, GROUND_PLANE, dir.z * steps + jz);

    let mut rolls: Vec<u32> = Vec::new();
    let mut n: u32 = 0;
    while n < count
        invariant
            n <= count,
            rolls@.len() == n,
            forall|i: int| 0 <= i < rolls@.len() ==> rolls@[i] < 3,
        decreases count - n,
    {
        rolls.push(rng_u32(rng, 0, 2));
        n = n + 1;
    }
    let houses = place_houses(center, count, &rolls);

    let half = (count / 2) as i32;
    let lo_x = -half * HOUSE_GRID_STEP;
    let hi_x: i32 = 0;
    let lo_z = -half * HOUSE_GRID_STEP;
    let hz_raw = (((count - 1) / (count / 2)) as i32 - half) * HOUSE_GRID_STEP;
    let hi_z: i32 = if hz_raw > 0 {
        hz_raw
    } else {
        0
    };

    let mut sam_sites: Vec<Vec3i> = Vec::new();
    let mut k: u32 = 0;
    while k < sam_count
        invariant
            k <= sam_count,
            sam_sites@.len() == k,
            lo_x == -village_grid_half(level as int) * HOUSE_GRID_STEP,
            hi_x == 0,
            lo_z == -village_grid_half(level as int) * HOUSE_GRID_STEP,
            hi_z == village_hi_z(level as int),
            -450 <= lo_x <= hi_x,
            hi_x == 0,
            -450 <= lo_z <= hi_z,
            hi_z <= 900,
            -10_000 <= center.x <= 10_000,
            -10_000 <= center.z <= 10_000,
            forall|i: int|
                0 <= i < sam_sites@.len() ==> {
                    &&& center.x + lo_x <= (#[trigger] sam_sites@[i]).x <= center.x + hi_x
                    &&& sam_sites@[i].y == center.y
                    &&& center.z + lo_z <= sam_sites@[i].z <= center.z + hi_z
                },
        decreases sam_count - k,
    {
        let ox = rng_i32(rng, lo_x, hi_x);
        let oz = rng_i32(rng, lo_z, hi_z);
        sam_sites.push(Vec3i::new(center.x + ox, center.y, center.z + oz));
        k = k + 1;
    }

    let village = VillageCenter { level, needs_gifts_count: count as i32, needs_gifts: true };
    proof {
        assert(center == village_center_from(dir, steps as int, jx as int, jz as int));
    }
    Some(VillageSpawn { center, village, houses, sam_sites })
}

/// What satisfying a house does: drop its waiting marker, count the village
/// down, and finish the level when the count reaches zero while the village
/// was still waiting. A house already satisfied changes nothing.
pub open spec fn receive_gifts_spec(house: House, village: VillageCenter) -> (
    House,
    VillageCenter,
    Option<LevelFinished>,
) {
    if house.needs_gifts is Some {
        let counted = VillageCenter {
            needs_gifts_count: (village.needs_gifts_count - 1) as i32,
            ..village
        };
        let cleared = House { needs_gifts: None, ..house };
        if village.needs_gifts_count <= 1 && village.needs_gifts {
            (
                cleared,
                VillageCenter { needs_gifts: false, ..counted },
                Some(LevelFinished(village.level)),
            )
        } else {
            (cleared, counted, None)
        }
    } else {
        (house, village, None)
    }
}

/// Deliver gifts to one house and keep its village's books. Finishing the
/// level is reported exactly when the village's countdown reaches zero while
/// it was still waiting.
pub fn receive_gifts(house: &mut House, village: &mut VillageCenter) -> (r: Option<LevelFinished>)
    requires
        old(village).needs_gifts_count > i32::MIN,
    ensures
        (*final(house), *final(village), r) == receive_gifts_spec(*old(house), *old(village)),
{
    if house.needs_gifts.is_some() {
        house.needs_gifts = None;
        village.needs_gifts_count = village.needs_gifts_count - 1;
        if village.needs_gifts_count <= 0 && village.needs_gifts {
            village.needs_gifts = false;
            return Some(LevelFinished(village.level));
        }
        None
    } else {
        None
    }
}

/// Law: delivering gifts to the same house twice changes nothing the second
/// time: the village's countdown moves once per house, and the level can
/// finish only once.
pub proof fn lemma_receive_gifts_idempotent(house: House, village: VillageCenter)
    ensures
        ({
            let (h1, v1, _) = receive_gifts_spec(house, village);
            let (h2, v2, r2) = receive_gifts_spec(h1, v1);
            h2 == h1 && v2 == v1 && r2 is None
        }),
{
}

} // verus!
