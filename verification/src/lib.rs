//! The decision core of an arcade air-defense game: a player delivering
//! gifts to villages of houses while SAM sites fire homing missiles back.
//!
//! Everything that decides — cooldown gates, target acquisition, the
//! engagement state machine, the missile flight model, collision resolution
//! and the per-level village layout — lives here with a contract. The host
//! engine around it owns rendering, physics integration and the scene graph;
//! it hands positions, elapsed time and collision pairs in as plain values
//! and takes spawn and despawn decisions back out.

pub mod collisions;
pub mod constants;
pub mod entity;
pub mod geometry;
pub mod missile;
pub mod rng;
pub mod sam_site;
pub mod santa;
pub mod timer;
pub mod villages;
