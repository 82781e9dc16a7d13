//! The thread-local random number generator of `rand`, from which the engine
//! draws the shards that are lost.
//!
//! Nothing in this file is proved: the contracts are taken from the
//! documentation of `rand` 0.7.

use rand::rngs::ThreadRng;
use rand::Rng;
use vstd::prelude::*;

verus! {

/// The handle of `rand`'s thread-local generator.
#[verifier::external_type_specification]
#[verifier::external_body]
pub struct ExThreadRng(ThreadRng);

/// `rand::thread_rng`: the handle of this thread's generator. Nothing is
/// known of what it will yield.
pub assume_specification[ rand::thread_rng ]() -> (rng: ThreadRng)
;

/// `Rng::gen_range(0, bound)` on the thread-local generator: some index below
/// `bound`. Which one is not known, and two calls may differ. The range must
/// not be empty.
#[verifier::external_body]
pub(crate) fn draw_below(rng: &mut ThreadRng, bound: usize) -> (index: usize)
    requires
        bound > 0,
    ensures
        index < bound,
{
    rng.gen_range(0, bound)
}

} // verus!
