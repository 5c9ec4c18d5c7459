//! The source of the per-step jitter.

use rand::Rng;
use vstd::prelude::*;
use crate::fixed::HALF;

verus! {

/// Declares `rand::rngs::ThreadRng`, the handle to the generator of a thread,
/// as a type of which nothing is known.
#[verifier::external_type_specification]
#[verifier::external_body]
pub struct ExThreadRng(rand::rngs::ThreadRng);

/// Calls `rand::rng`, which hands out the generator of the calling thread.
/// Nothing is claimed of it. The first call on a thread seeds the generator
/// and panics where the operating system has no entropy to give; no input
/// decides that, so no `requires` can leave it out.
#[verifier::external_body]
fn thread_rng() -> (rng: rand::rngs::ThreadRng) {
    rand::rng()
}

/// Calls `Rng::random_range` on the half-open range `low..high`. The call
/// panics on an empty range, which `requires` leaves out; the value drawn lies
/// in the range, and that is all that is claimed of it. The generator reseeds
/// itself from time to time and panics where the operating system has no
/// entropy to give; no input decides that, so no `requires` can leave it out.
#[verifier::external_body]
fn random_in(rng: &mut rand::rngs::ThreadRng, low: i32, high: i32) -> (drawn: i32)
    requires
        low < high,
    ensures
        low <= drawn < high,
{
    rng.random_range(low..high)
}

/// Whether `jitter` is a perturbation that the source can draw: at least
/// minus half a device unit and less than half a device unit.
pub open spec fn is_jitter(jitter: int) -> bool {
    -HALF <= jitter < HALF
}

/// Draws the perturbation of one axis of one step.
pub struct JitterSource {
    rng: rand::rngs::ThreadRng,
}

impl JitterSource {
    /// A source that draws from the generator of the calling thread.
    pub fn new() -> (source: JitterSource) {
        JitterSource { rng: thread_rng() }
    }

    /// One perturbation, in millionths of a device unit.
    pub fn sample(&mut self) -> (jitter: i32)
        ensures
            is_jitter(jitter as int),
    {
        let half: i32 = HALF as i32;
        random_in(&mut self.rng, -half, half)
    }
}

} // verus!
