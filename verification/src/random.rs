//! The random source behind task generation: `rand`'s thread-local generator.

use vstd::prelude::*;
use rand::rngs::ThreadRng;

verus! {

/// `rand::rngs::ThreadRng`, the thread-local generator of `rand`; opaque here.
#[verifier::external_type_specification]
#[verifier::external_body]
pub struct ExThreadRng(ThreadRng);

/// Calls `rand::thread_rng`, which hands out a handle to the lazily seeded
/// thread-local generator. Nothing is claimed of the handle.
#[verifier::external_body]
pub(crate) fn thread_rng() -> ThreadRng {
    rand::thread_rng()
}

/// Calls `rand::Rng::gen_range` on the range `low..=high`. The claim: a value
/// in that range comes back. `gen_range` panics on an empty range, so the range
/// must not be empty. Which value comes back is left open: it rests on chance.
#[verifier::external_body]
pub(crate) fn gen_range_inclusive(rng: &mut ThreadRng, low: i32, high: i32) -> (r: i32)
    requires
        low <= high,
    ensures
        low <= r <= high,
{
    rand::Rng::gen_range(rng, low..=high)
}

} // verus!
