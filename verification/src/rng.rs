//! Randomness, taken from the host's shared generator.
//!
//! Every random decision in the game (damage rolls, house types, village
//! scatter, explosion sizes) draws from one `bevy_turborand::GlobalRng`
//! handle that the caller threads through. Nothing here claims which value
//! comes back, only its bounds: the logic downstream is verified for every
//! value the bounds admit.

use vstd::prelude::*;
use bevy_turborand::{DelegatedRng, GlobalRng};

verus! {

#[verifier::external_type_specification]
#[verifier::external_body]
pub struct ExGlobalRng(GlobalRng);

/// Relies on `bevy_turborand::DelegatedRng::i32` (turborand's bounded integer
/// sampling): the result lies within the given bounds, both inclusive, and the
/// call panics only on an empty range, which the precondition rules out.
#[verifier::external_body]
pub(crate) fn rng_i32(rng: &mut GlobalRng, lo: i32, hi: i32) -> (r: i32)
    requires
        lo <= hi,
    ensures
        lo <= r <= hi,
{
    rng.i32(lo..=hi)
}

/// Relies on `bevy_turborand::DelegatedRng::u32` (turborand's bounded integer
/// sampling): the result lies within the given bounds, both inclusive, and the
/// call panics only on an empty range, which the precondition rules out.
#[verifier::external_body]
pub(crate) fn rng_u32(rng: &mut GlobalRng, lo: u32, hi: u32) -> (r: u32)
    requires
        lo <= hi,
    ensures
        lo <= r <= hi,
{
    rng.u32(lo..=hi)
}

} // verus!
