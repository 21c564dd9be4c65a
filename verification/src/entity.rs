//! Entity handles.
//!
//! Every game object (the player, a turret, a missile, a house, a collider)
//! is known to the host scene by an opaque numeric handle. The logic here
//! never owns what a handle points to: holding one is a weak reference, and
//! every dereference is a fallible lookup in a table kept by the caller.

use vstd::prelude::*;

verus! {

/// Opaque handle of a game object in the host scene.
#[derive(Clone, Copy, PartialEq, Eq, Structural, Debug)]
pub struct EntityId(pub u64);

} // verus!
