//! The randomized spawn gap: the one place the library leans on `rand`.
//!
//! The game keeps its own generator handle and samples the number of ticks
//! until the next obstacle from a fixed inclusive range. Nothing more than
//! the range is promised of a sample, so every caller is verified for every
//! value the generator can hand back.

use vstd::prelude::*;

use crate::OBSTACLE_MAX_SPAWN_GAP_FRAMES;
use crate::OBSTACLE_MIN_SPAWN_GAP_FRAMES;

verus! {

#[verifier::external_type_specification]
#[verifier::external_body]
pub struct ExThreadRng(rand::rngs::ThreadRng);

/// Relies on `rand::thread_rng`: a handle to the thread-local generator.
#[verifier::external_body]
pub(crate) fn new_thread_rng() -> rand::rngs::ThreadRng {
    rand::thread_rng()
}

/// Relies on `rand::Rng::gen_range` on an inclusive range: the sample lies
/// within the bounds, and the range here is constant and never empty, so
/// the call cannot panic. The value itself is random, so nothing more is
/// stated.
#[verifier::external_body]
pub(crate) fn sample_spawn_gap(rng: &mut rand::rngs::ThreadRng) -> (gap: u16)
    ensures
        OBSTACLE_MIN_SPAWN_GAP_FRAMES <= gap <= OBSTACLE_MAX_SPAWN_GAP_FRAMES,
{
    rand::Rng::gen_range(rng, OBSTACLE_MIN_SPAWN_GAP_FRAMES..=OBSTACLE_MAX_SPAWN_GAP_FRAMES)
}

} // verus!
