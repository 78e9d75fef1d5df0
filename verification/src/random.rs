//! The random source. Nothing here is proved: these are the contracts that
//! the rest of the crate takes on trust from the `rand` crate.

use rand::seq::IndexedRandom;
use vstd::prelude::*;

use crate::moves::Move;

verus! {

/// `rand::rngs::ThreadRng`, the handle to the thread-local generator. Its
/// state is hidden: a value is only created and handed on.
#[verifier::external_type_specification]
#[verifier::external_body]
pub struct ExThreadRng(rand::rngs::ThreadRng);

/// `rand::rng` hands out the handle to the thread-local generator, which is
/// seeded from the operating system on its first use in a thread. Nothing is
/// claimed of the handle. The call panics if the operating system cannot
/// supply that seed.
pub assume_specification[ rand::rng ]() -> (handle: rand::rngs::ThreadRng)
;

/// `IndexedRandom::choose` on a slice of moves. Taken on trust: it gives
/// `None` exactly when the slice is empty, and otherwise one of the slice's
/// elements. Which element comes back is left open, so two calls on the same
/// slice may differ; that `rand` picks each with the same chance is its
/// promise and is not stated here. A draw on a slice that is not empty takes
/// output from the generator, which seeds itself anew from the operating
/// system every 64 KiB of output: the call panics if that fails.
#[verifier::external_body]
pub(crate) fn choose_move(
    moves: &[Move],
    rng: &mut rand::rngs::ThreadRng,
) -> (picked: Option<Move>)
    ensures
        picked is None <==> moves@.len() == 0,
        picked matches Some(m) ==> moves@.contains(m),
{
    moves.choose(rng).copied()
}

} // verus!
