//! Random draws, taken from the `rand` crate.
//!
//! Nothing here is proved: the contracts below are what the rest of the
//! crate takes on trust about `rand`.

use rand::rngs::ThreadRng;
use rand::Rng;
use vstd::prelude::*;

verus! {

/// The handle of `rand` to the random number generator of the running
/// thread. Nothing is known of what it holds.
#[verifier::external_type_specification]
#[verifier::external_body]
pub struct ExThreadRng(rand::rngs::ThreadRng);

/// `rand::thread_rng` hands out the generator of the running thread, which
/// is seeded by the operating system on first use; it takes no argument and
/// fails only where the operating system has no entropy to give. Nothing is
/// claimed of the handle.
pub assume_specification[ rand::thread_rng ]() -> (rng: ThreadRng);

/// Draws a number below `bound` with `Rng::gen_range(0, bound)`.
///
/// `gen_range(low, high)` yields a value that is at least `low` and less
/// than `high`, and panics where `low >= high`; so the bound must be
/// positive, and the result lies below it. Which value comes is left open.
#[verifier::external_body]
pub(crate) fn draw_below(rng: &mut ThreadRng, bound: u16) -> (drawn: u16)
    requires
        bound > 0,
    ensures
        drawn < bound,
{
    rng.gen_range(0, bound)
}

} // verus!
