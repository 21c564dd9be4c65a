//! Collision resolution: damage, gift delivery, and level chaining.
//!
//! The host's physics reports a started collision as a pair of collider
//! entities. Colliders are child entities; tables of child records resolve
//! each one to the owner it stands for. A pair that resolves to a known rule
//! (missile against the player, gift against a house) despawns the projectile
//! at once and applies the rule's effect. A projectile already despawned no
//! longer resolves, so a duplicate of the same event falls through as a
//! no-op.

use vstd::prelude::*;

use bevy_turborand::GlobalRng;

use crate::constants::{MISSILE_DAMAGE_MAX, MISSILE_DAMAGE_MIN};
use crate::entity::EntityId;
use crate::geometry::Vec3i;
use crate::rng::rng_i32;
use crate::sam_site::SamChild;
use crate::santa::{Health, SantaChild, TargetEvent, TargetEventTypes};
use crate::villages::{
    receive_gifts, receive_gifts_spec, House, HouseChild, HouseEvent, HouseEventType, LoadLevel,
    VillageCenter,
};

verus! {

broadcast use {
    vstd::prelude::Seq::lemma_filter_contains_rev,
    vstd::prelude::Seq::lemma_filter_push,
    vstd::prelude::Seq::lemma_take_len,
    vstd::prelude::Seq::lemma_take_succ_push,
    vstd::seq_lib::group_filter_ensures,
};

/// A started collision between two collider entities, as the host's physics
/// reports it. Which of the two comes first carries no meaning.
#[derive(Clone, Copy, PartialEq, Eq, Structural, Debug)]
pub struct CollisionStarted(pub EntityId, pub EntityId);

/// Request to show an explosion where something was hit.
#[derive(Clone, Copy, PartialEq, Eq, Structural, Debug)]
pub struct SpawnExplosionAt {
    pub position: Vec3i,
}

/// The given level has been cleared.
#[derive(Clone, Copy, PartialEq, Eq, Structural, Debug)]
pub struct LevelFinished(pub u32);

/// The owner of the first missile-collider record matching `collider`.
pub open spec fn sam_parent_of(s: Seq<SamChild>, collider: EntityId) -> Option<EntityId>
    decreases s.len(),
{
    if s.len() == 0 {
        None
    } else if s[0].collider == collider {
        Some(s[0].parent)
    } else {
        sam_parent_of(s.drop_first(), collider)
    }
}

/// The owner of the first player-collider record matching `collider`.
pub open spec fn santa_parent_of(s: Seq<SantaChild>, collider: EntityId) -> Option<EntityId>
    decreases s.len(),
{
    if s.len() == 0 {
        None
    } else if s[0].collider == collider {
        Some(s[0].parent)
    } else {
        santa_parent_of(s.drop_first(), collider)
    }
}

/// The owner of the first house-collider record matching `collider`.
pub open spec fn house_parent_of(s: Seq<HouseChild>, collider: EntityId) -> Option<EntityId>
    decreases s.len(),
{
    if s.len() == 0 {
        None
    } else if s[0].collider == collider {
        Some(s[0].parent)
    } else {
        house_parent_of(s.drop_first(), collider)
    }
}

/// The position of the first projectile entry matching `id`.
pub open spec fn missile_pos_of(s: Seq<(EntityId, Vec3i)>, id: EntityId) -> Option<Vec3i>
    decreases s.len(),
{
    if s.len() == 0 {
        None
    } else if s[0].0 == id {
        Some(s[0].1)
    } else {
        missile_pos_of(s.drop_first(), id)
    }
}

proof fn lemma_sam_parent_of_step(s: Seq<SamChild>, collider: EntityId, k: int)
    requires
        0 <= k < s.len(),
        s[k].collider != collider,
    ensures
        sam_parent_of(s.skip(k), collider) == sam_parent_of(s.skip(k + 1), collider),
{
    assert(s.skip(k)[0] == s[k]);
    assert(s.skip(k).drop_first() =~= s.skip(k + 1));
}

/// Resolve a missile collider to its owner: the first matching record wins.
pub fn find_sam_parent(children: &Vec<SamChild>, collider: EntityId) -> (r: Option<EntityId>)
    ensures
        r == sam_parent_of(children@, collider),
{
    let mut k: usize = 0;
    while k < children.len()
        invariant
            k <= children@.len(),
            sam_parent_of(children@, collider) == sam_parent_of(children@.skip(k as int), collider),
        decreases children@.len() - k,
    {
        let c = children[k];
        if c.collider == collider {
            proof {
                assert(children@.skip(k as int)[0] == children@[k as int]);
            }
            return Some(c.parent);
        }
        proof {
            lemma_sam_parent_of_step(children@, collider, k as int);
        }
        k = k + 1;
    }
    proof {
        assert(children@.skip(k as int) =~= Seq::<SamChild>::empty());
    }
    None
}

proof fn lemma_santa_parent_of_step(s: Seq<SantaChild>, collider: EntityId, k: int)
    requires
        0 <= k < s.len(),
        s[k].collider != collider,
    ensures
        santa_parent_of(s.skip(k), collider) == santa_parent_of(s.skip(k + 1), collider),
{
    assert(s.skip(k)[0] == s[k]);
    assert(s.skip(k).drop_first() =~= s.skip(k + 1));
}

/// Resolve a player collider to its owner: the first matching record wins.
pub fn find_santa_parent(children: &Vec<SantaChild>, collider: EntityId) -> (r: Option<EntityId>)
    ensures
        r == santa_parent_of(children@, collider),
{
    let mut k: usize = 0;
    while k < children.len()
        invariant
            k <= children@.len(),
            santa_parent_of(children@, collider) == santa_parent_of(children@.skip(k as int), collider),
        decreases children@.len() - k,
    {
        let c = children[k];
        if c.collider == collider {
            proof {
                assert(children@.skip(k as int)[0] == children@[k as int]);
            }
            return Some(c.parent);
        }
        proof {
            lemma_santa_parent_of_step(children@, collider, k as int);
        }
        k = k + 1;
    }
    proof {
        assert(children@.skip(k as int) =~= Seq::<SantaChild>::empty());
    }
    None
}

proof fn lemma_house_parent_of_step(s: Seq<HouseChild>, collider: EntityId, k: int)
    requires
        0 <= k < s.len(),
        s[k].collider != collider,
    ensures
        house_parent_of(s.skip(k), collider) == house_parent_of(s.skip(k + 1), collider),
{
    assert(s.skip(k)[0] == s[k]);
    assert(s.skip(k).drop_first() =~= s.skip(k + 1));
}

/// Resolve a house collider to its owner: the first matching record wins.
pub fn find_house_parent(children: &Vec<HouseChild>, collider: EntityId) -> (r: Option<EntityId>)
    ensures
        r == house_parent_of(children@, collider),
{
    let mut k: usize = 0;
    while k < children.len()
        invariant
            k <= children@.len(),
            house_parent_of(children@, collider) == house_parent_of(children@.skip(k as int), collider),
        decreases children@.len() - k,
    {
        let c = children[k];
        if c.collider == collider {
            proof {
                assert(children@.skip(k as int)[0] == children@[k as int]);
            }
            return Some(c.parent);
        }
        proof {
            lemma_house_parent_of_step(children@, collider, k as int);
        }
        k = k + 1;
    }
    proof {
        assert(children@.skip(k as int) =~= Seq::<HouseChild>::empty());
    }
    None
}

proof fn lemma_missile_pos_of_step(s: Seq<(EntityId, Vec3i)>, id: EntityId, k: int)
    requires
        0 <= k < s.len(),
        s[k].0 != id,
    ensures
        missile_pos_of(s.skip(k), id) == missile_pos_of(s.skip(k + 1), id),
{
    assert(s.skip(k)[0] == s[k]);
    assert(s.skip(k).drop_first() =~= s.skip(k + 1));
}

/// Look a projectile's position up: the first matching entry wins.
pub fn find_missile_position(missiles: &Vec<(EntityId, Vec3i)>, id: EntityId) -> (r: Option<Vec3i>)
    ensures
        r == missile_pos_of(missiles@, id),
{
    let mut k: usize = 0;
    while k < missiles.len()
        invariant
            k <= missiles@.len(),
            missile_pos_of(missiles@, id) == missile_pos_of(missiles@.skip(k as int), id),
        decreases missiles@.len() - k,
    {
        let m = missiles[k];
        if m.0 == id {
            proof {
                assert(missiles@.skip(k as int)[0] == missiles@[k as int]);
            }
            return Some(m.1);
        }
        proof {
            lemma_missile_pos_of_step(missiles@, id, k as int);
        }
        k = k + 1;
    }
    proof {
        assert(missiles@.skip(k as int) =~= Seq::<(EntityId, Vec3i)>::empty());
    }
    None
}

/// The missile-collider table with every record of owner `parent` gone, as a
/// recursive despawn leaves it.
pub open spec fn drop_sam_children(s: Seq<SamChild>, parent: EntityId) -> Seq<SamChild> {
    s.filter(|c: SamChild| c.parent != parent)
}

/// The projectile table with every entry of `id` gone.
pub open spec fn drop_missile(s: Seq<(EntityId, Vec3i)>, id: EntityId) -> Seq<(EntityId, Vec3i)> {
    s.filter(|p: (EntityId, Vec3i)| p.0 != id)
}

/// Despawn a projectile's collider records.
pub fn remove_sam_children_of(children: &mut Vec<SamChild>, parent: EntityId)
    ensures
        final(children)@ == drop_sam_children(old(children)@, parent),
{
    let ghost all = old(children)@;
    let mut out: Vec<SamChild> = Vec::new();
    let mut k: usize = 0;
    while k < children.len()
        invariant
            *children == *old(children),
            k <= all.len(),
            all == children@,
            out@ == drop_sam_children(all.take(k as int), parent),
        decreases all.len() - k,
    {
        let c = children[k];
        if c.parent != parent {
            out.push(c);
        }
        k = k + 1;
    }
    proof {
        assert(all.take(all.len() as int) == all);
    }
    *children = out;
}

/// Despawn a projectile's own table entry.
pub fn remove_missile(missiles: &mut Vec<(EntityId, Vec3i)>, id: EntityId)
    ensures
        final(missiles)@ == drop_missile(old(missiles)@, id),
{
    let ghost all = old(missiles)@;
    let mut out: Vec<(EntityId, Vec3i)> = Vec::new();
    let mut k: usize = 0;
    while k < missiles.len()
        invariant
            *missiles == *old(missiles),
            k <= all.len(),
            all == missiles@,
            out@ == drop_missile(all.take(k as int), id),
        decreases all.len() - k,
    {
        let m = missiles[k];
        if m.0 != id {
            out.push(m);
        }
        k = k + 1;
    }
    proof {
        assert(all.take(all.len() as int) == all);
    }
    *missiles = out;
}

/// Classify a collision pair as missile-against-player: both sides must
/// resolve, in either order.
pub open spec fn classify_missile_santa_spec(
    c: CollisionStarted,
    missile_children: Seq<SamChild>,
    santa_children: Seq<SantaChild>,
) -> Option<(EntityId, EntityId)> {
    match santa_parent_of(santa_children, c.0) {
        Some(sp) => match sam_parent_of(missile_children, c.1) {
            Some(mp) => Some((mp, sp)),
            None => None,
        },
        None => match santa_parent_of(santa_children, c.1) {
            Some(sp) => match sam_parent_of(missile_children, c.0) {
                Some(mp) => Some((mp, sp)),
                None => None,
            },
            None => None,
        },
    }
}

/// Resolve a collision pair to (missile owner, player owner), if the pair is
/// a missile hitting the player.
pub fn classify_missile_santa(
    collision: &CollisionStarted,
    missile_children: &Vec<SamChild>,
    santa_children: &Vec<SantaChild>,
) -> (r: Option<(EntityId, EntityId)>)
    ensures
        r == classify_missile_santa_spec(*collision, missile_children@, santa_children@),
{
    match find_santa_parent(santa_children, collision.0) {
        Some(sp) => match find_sam_parent(missile_children, collision.1) {
            Some(mp) => Some((mp, sp)),
            None => None,
        },
        None => match find_santa_parent(santa_children, collision.1) {
            Some(sp) => match find_sam_parent(missile_children, collision.0) {
                Some(mp) => Some((mp, sp)),
                None => None,
            },
            None => None,
        },
    }
}

/// Classify a collision pair as gift-against-house: both sides must resolve,
/// in either order.
pub open spec fn classify_gift_house_spec(
    c: CollisionStarted,
    gift_children: Seq<SamChild>,
    house_children: Seq<HouseChild>,
) -> Option<(EntityId, EntityId)> {
    match house_parent_of(house_children, c.0) {
        Some(hp) => match sam_parent_of(gift_children, c.1) {
            Some(gp) => Some((gp, hp)),
            None => None,
        },
        None => match house_parent_of(house_children, c.1) {
            Some(hp) => match sam_parent_of(gift_children, c.0) {
                Some(gp) => Some((gp, hp)),
                None => None,
            },
            None => None,
        },
    }
}

/// Resolve a collision pair to (gift owner, house owner), if the pair is a
/// gift projectile hitting a house.
pub fn classify_gift_house(
    collision: &CollisionStarted,
    gift_children: &Vec<SamChild>,
    house_children: &Vec<HouseChild>,
) -> (r: Option<(EntityId, EntityId)>)
    ensures
        r == classify_gift_house_spec(*collision, gift_children@, house_children@),
{
    match find_house_parent(house_children, collision.0) {
        Some(hp) => match find_sam_parent(gift_children, collision.1) {
            Some(gp) => Some((gp, hp)),
            None => None,
        },
        None => match find_house_parent(house_children, collision.1) {
            Some(hp) => match find_sam_parent(gift_children, collision.0) {
                Some(gp) => Some((gp, hp)),
                None => None,
            },
            None => None,
        },
    }
}

/// Resolve one missile-against-player collision with the damage already
/// drawn: despawn the missile and its colliders, subtract the damage, and ask
/// for an explosion where the missile was. A pair that does not classify (in
/// particular, one whose missile was already despawned) changes nothing.
pub fn apply_missile_santa_collision(
    collision: &CollisionStarted,
    missile_children: &mut Vec<SamChild>,
    santa_children: &Vec<SantaChild>,
    missiles: &mut Vec<(EntityId, Vec3i)>,
    santa_health: &mut Health,
    damage: i32,
) -> (r: Option<SpawnExplosionAt>)
    requires
        MISSILE_DAMAGE_MIN <= damage <= MISSILE_DAMAGE_MAX,
        old(santa_health).health >= i32::MIN + MISSILE_DAMAGE_MAX,
    ensures
        classify_missile_santa_spec(*collision, old(missile_children)@, santa_children@) is None
            ==> {
            &&& *final(missile_children) == *old(missile_children)
            &&& *final(missiles) == *old(missiles)
            &&& *final(santa_health) == *old(santa_health)
            &&& r is None
        },
        classify_missile_santa_spec(*collision, old(missile_children)@, santa_children@) matches Some(
            (m, _sp),
        ) ==> {
            &&& final(missile_children)@ == drop_sam_children(old(missile_children)@, m)
            &&& final(missiles)@ == drop_missile(old(missiles)@, m)
            &&& final(santa_health).health == old(santa_health).health - damage
            &&& r == (match missile_pos_of(old(missiles)@, m) {
                Some(p) => Some(SpawnExplosionAt { position: p }),
                None => None,
            })
        },
{
    match classify_missile_santa(collision, missile_children, santa_children) {
        None => None,
        Some((missile, _santa)) => {
            let hit_position = find_missile_position(missiles, missile);
            remove_missile(missiles, missile);
            remove_sam_children_of(missile_children, missile);
            santa_health.health = santa_health.health - damage;
            match hit_position {
                Some(position) => Some(SpawnExplosionAt { position }),
                None => None,
            }
        },
    }
}

/// Resolve one missile-against-player collision, drawing the damage from the
/// shared generator: some amount within the damage range is subtracted, and
/// the rest happens as in `apply_missile_santa_collision`.
pub fn missile_santa_collision_handler(
    collision: &CollisionStarted,
    missile_children: &mut Vec<SamChild>,
    santa_children: &Vec<SantaChild>,
    missiles: &mut Vec<(EntityId, Vec3i)>,
    santa_health: &mut Health,
    rng: &mut GlobalRng,
) -> (r: Option<SpawnExplosionAt>)
    requires
        old(santa_health).health >= i32::MIN + MISSILE_DAMAGE_MAX,
    ensures
        classify_missile_santa_spec(*collision, old(missile_children)@, santa_children@) is None
            ==> {
            &&& *final(missile_children) == *old(missile_children)
            &&& *final(missiles) == *old(missiles)
            &&& *final(santa_health) == *old(santa_health)
            &&& r is None
        },
        classify_missile_santa_spec(*collision, old(missile_children)@, santa_children@) matches Some(
            (m, _sp),
        ) ==> {
            &&& final(missile_children)@ == drop_sam_children(old(missile_children)@, m)
            &&& final(missiles)@ == drop_missile(old(missiles)@, m)
            &&& old(santa_health).health - MISSILE_DAMAGE_MAX <= final(santa_health).health
                <= old(santa_health).health - MISSILE_DAMAGE_MIN
            &&& r == (match missile_pos_of(old(missiles)@, m) {
                Some(p) => Some(SpawnExplosionAt { position: p }),
                None => None,
            })
        },
{
    let damage = rng_i32(rng, MISSILE_DAMAGE_MIN, MISSILE_DAMAGE_MAX);
    apply_missile_santa_collision(
        collision,
        missile_children,
        santa_children,
        missiles,
        santa_health,
        damage,
    )
}

/// Resolve one gift-against-house collision: despawn the gift projectile and
/// its colliders, ask for an explosion where it was, and report which house
/// received its gifts. A pair that does not classify changes nothing.
pub fn gift_house_collision_handler(
    collision: &CollisionStarted,
    gift_children: &mut Vec<SamChild>,
    house_children: &Vec<HouseChild>,
    gifts: &mut Vec<(EntityId, Vec3i)>,
) -> (r: (Option<SpawnExplosionAt>, Option<HouseEvent>))
    ensures
        classify_gift_house_spec(*collision, old(gift_children)@, house_children@) is None ==> {
            &&& *final(gift_children) == *old(gift_children)
            &&& *final(gifts) == *old(gifts)
            &&& r == (None::<SpawnExplosionAt>, None::<HouseEvent>)
        },
        classify_gift_house_spec(*collision, old(gift_children)@, house_children@) matches Some(
            (g, hp),
        ) ==> {
            &&& final(gift_children)@ == drop_sam_children(old(gift_children)@, g)
            &&& final(gifts)@ == drop_missile(old(gifts)@, g)
            &&& r.0 == (match missile_pos_of(old(gifts)@, g) {
                Some(p) => Some(SpawnExplosionAt { position: p }),
                None => None,
            })
            &&& r.1 == Some(HouseEvent(HouseEventType::ReceivedGifts(hp)))
        },
{
    match classify_gift_house(collision, gift_children, house_children) {
        None => (None, None),
        Some((gift, house)) => {
            let hit_position = find_missile_position(gifts, gift);
            remove_missile(gifts, gift);
            remove_sam_children_of(gift_children, gift);
            let explosion = match hit_position {
                Some(position) => Some(SpawnExplosionAt { position }),
                None => None,
            };
            (explosion, Some(HouseEvent(HouseEventType::ReceivedGifts(house))))
        },
    }
}

/// Consume one house event: deliver the gifts to the resolved house, keep the
/// village's books, and tell the engagement machine to stop shooting at it.
pub fn received_gifts_handler(event: &HouseEvent, house: &mut House, village: &mut VillageCenter) -> (r: (
    Option<LevelFinished>,
    TargetEvent,
))
    requires
        old(village).needs_gifts_count > i32::MIN,
    ensures
        (*final(house), *final(village), r.0) == receive_gifts_spec(*old(house), *old(village)),
        r.1 == TargetEvent(TargetEventTypes::StopShooting),
{
    let HouseEventType::ReceivedGifts(_house_entity) = event.0;
    let finished = receive_gifts(house, village);
    (finished, TargetEvent(TargetEventTypes::StopShooting))
}

/// Chain a finished level into the next one: ask for the next level to load,
/// and clear every SAM site, each going up in an explosion where it stood.
pub fn level_finished_handler(event: &LevelFinished, sam_sites: &mut Vec<(EntityId, Vec3i)>) -> (r: (
    LoadLevel,
    Vec<SpawnExplosionAt>,
))
    requires
        event.0 < u32::MAX,
    ensures
        r.0 == LoadLevel((event.0 + 1) as u32),
        r.1@.len() == old(sam_sites)@.len(),
        forall|i: int|
            0 <= i < r.1@.len() ==> (#[trigger] r.1@[i]) == (SpawnExplosionAt {
                position: old(sam_sites)@[i].1,
            }),
        final(sam_sites)@.len() == 0,
{
    let mut explosions: Vec<SpawnExplosionAt> = Vec::new();
    let mut k: usize = 0;
    while k < sam_sites.len()
        invariant
            *sam_sites == *old(sam_sites),
            k <= sam_sites@.len(),
            explosions@.len() == k,
            forall|i: int|
                0 <= i < k ==> (#[trigger] explosions@[i]) == (SpawnExplosionAt {
                    position: old(sam_sites)@[i].1,
                }),
        decreases sam_sites@.len() - k,
    {
        let site = sam_sites[k];
        explosions.push(SpawnExplosionAt { position: site.1 });
        k = k + 1;
    }
    *sam_sites = Vec::new();
    (LoadLevel(event.0 + 1), explosions)
}

/// How many burst particles one explosion shows: one less than a roll of the
/// burst size range, so between two and seven.
pub fn explosion_particle_count(rng: &mut GlobalRng) -> (n: u32)
    ensures
        2 <= n <= 7,
{
    let size = rng_i32(rng, 3, 8);
    (size - 1) as u32
}

/// No record of the table carries this collider.
pub open spec fn collider_absent(s: Seq<SamChild>, collider: EntityId) -> bool {
    forall|i: int| 0 <= i < s.len() ==> (#[trigger] s[i]).collider != collider
}

/// Every collider appears in at most one record: a collider entity stands for
/// exactly one owner.
pub open spec fn unique_colliders(s: Seq<SamChild>) -> bool {
    forall|i: int, j: int|
        0 <= i < s.len() && 0 <= j < s.len() && i != j ==> (#[trigger] s[i]).collider != (
        #[trigger] s[j]).collider
}

proof fn lemma_sam_parent_of_found(s: Seq<SamChild>, collider: EntityId, p: EntityId)
    requires
        sam_parent_of(s, collider) == Some(p),
    ensures
        exists|i: int|
            0 <= i < s.len() && (#[trigger] s[i]).collider == collider && s[i].parent == p,
    decreases s.len(),
{
    if s.len() > 0 {
        if s[0].collider == collider {
            assert(s[0].collider == collider && s[0].parent == p);
        } else {
            lemma_sam_parent_of_found(s.drop_first(), collider, p);
            let i = choose|i: int|
                0 <= i < s.drop_first().len() && (#[trigger] s.drop_first()[i]).collider == collider
                    && s.drop_first()[i].parent == p;
            assert(s[i + 1] == s.drop_first()[i]);
        }
    }
}

proof fn lemma_sam_parent_of_absent(s: Seq<SamChild>, collider: EntityId)
    requires
        collider_absent(s, collider),
    ensures
        sam_parent_of(s, collider) is None,
    decreases s.len(),
{
    if s.len() > 0 {
        assert(forall|i: int|
            0 <= i < s.drop_first().len() ==> (#[trigger] s.drop_first()[i]) == s[i + 1]);
        lemma_sam_parent_of_absent(s.drop_first(), collider);
    }
}

/// After every record of owner `m` left the table, a collider that resolved
/// to `m` resolves no more, provided colliders are unique.
proof fn lemma_drop_parent_hides_collider(s: Seq<SamChild>, collider: EntityId, m: EntityId)
    requires
        unique_colliders(s),
        sam_parent_of(s, collider) == Some(m),
    ensures
        sam_parent_of(drop_sam_children(s, m), collider) is None,
{
    let dropped = drop_sam_children(s, m);
    lemma_sam_parent_of_found(s, collider, m);
    let i0 = choose|i: int|
        0 <= i < s.len() && (#[trigger] s[i]).collider == collider && s[i].parent == m;
    assert forall|j: int| 0 <= j < dropped.len() implies (#[trigger] dropped[j]).collider
        != collider by {
        assert(dropped.contains(dropped[j]));
        assert(s.contains(dropped[j]));
        let k = choose|k: int| 0 <= k < s.len() && s[k] == dropped[j];
        if dropped[j].collider == collider {
            assert(k == i0);
            assert(dropped[j].parent == m);
            assert(!((|c: SamChild| c.parent != m)(dropped[j])));
        }
    }
    lemma_sam_parent_of_absent(dropped, collider);
}

/// Law: once a collision despawned its missile, delivering the very same
/// collision again classifies as nothing, so neither damage nor gift
/// bookkeeping can be applied twice. Colliders must be unique, as a collider
/// entity has exactly one owner.
pub proof fn lemma_duplicate_collision_is_noop(
    c: CollisionStarted,
    missile_children: Seq<SamChild>,
    santa_children: Seq<SantaChild>,
    m: EntityId,
    sp: EntityId,
)
    requires
        unique_colliders(missile_children),
        classify_missile_santa_spec(c, missile_children, santa_children) == Some((m, sp)),
    ensures
        classify_missile_santa_spec(c, drop_sam_children(missile_children, m), santa_children)
            is None,
{
    match santa_parent_of(santa_children, c.0) {
        Some(_) => {
            lemma_drop_parent_hides_collider(missile_children, c.1, m);
        },
        None => {
            lemma_drop_parent_hides_collider(missile_children, c.0, m);
        },
    }
}

} // verus!
