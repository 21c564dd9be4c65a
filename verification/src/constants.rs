//! Game tuning constants.
//!
//! Times are in milliseconds, positions in whole world units, and scalar
//! speeds in milli-units per second (so a speed of 60 units per second is
//! written 60_000).

use vstd::prelude::*;

verus! {

/// Height of the ground plane, in world units.
pub const GROUND_PLANE: i32 = -15;

/// Top speed of a surface-to-air missile, milli-units per second.
pub const SAM_MAX_SPEED: u32 = 60_000;

/// Speed gained by a missile per second of flight, milli-units per second.
pub const SAM_ACCELERATION: u32 = 50_000;

/// Speed a missile leaves its launcher with, milli-units per second.
pub const SAM_LAUNCH_SPEED: u32 = 10_000;

/// Flight time budget of a missile before it self-destructs, milliseconds.
pub const SAM_TIME_TO_LIVE: u64 = 10_000;

/// Missiles a SAM site fires per minute.
pub const SAM_RATE_OF_FIRE_PER_MINUTE: u32 = 12;

/// Delay between two SAM site spawns, milliseconds.
pub const SAM_SITE_SPAWN_COOLDOWN: u64 = 2_000;

/// Gift projectiles the player fires per minute while engaging.
pub const SANTA_RATE_OF_FIRE_PER_MINUTE: u32 = 20;

/// Engagement range: the player starts shooting at a target closer than this
/// many world units.
pub const SANTA_MISSILE_RANGE: i64 = 150;

/// Half-width of the random scatter applied to a village center, world units.
pub const HOUSE_RADIUS: i32 = 25;

/// Distance step between the player and a newly placed village, world units.
pub const HOUSE_SPAWN_DISTANCE: i32 = 100;

/// Spacing of the house grid inside a village, world units.
pub const HOUSE_GRID_STEP: i32 = 30;

/// Smallest damage a missile hit deals to the player.
pub const MISSILE_DAMAGE_MIN: i32 = 5;

/// Largest damage a missile hit deals to the player.
pub const MISSILE_DAMAGE_MAX: i32 = 15;

/// The level after which the game is won.
pub const LAST_LEVEL: u32 = 10;

} // verus!
