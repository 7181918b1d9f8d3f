//! Drawing the computer's move at random.

use crate::moves::Move;
use rand::seq::SliceRandom;
use vstd::pervasive::unreached;
use vstd::prelude::*;

verus! {

/// Calls `rand::seq::SliceRandom::choose` on `moves` with the generator that
/// `rand::thread_rng` hands out. The draw is random, so the contract says only
/// what holds of every draw: nothing comes out of an empty slice, and what
/// comes out of another is one of its elements. The generator is seeded by
/// the operating system the first time a thread asks for it, and `rand`
/// panics if that seeding fails.
#[verifier::external_body]
fn pick_from(moves: &[Move]) -> (picked: Option<Move>)
    ensures
        moves@.len() == 0 ==> picked is None,
        moves@.len() > 0 ==> picked is Some && moves@.contains(picked->0),
{
    moves.choose(&mut rand::thread_rng()).copied()
}

/// Draws one of the three moves at random.
pub fn sample_move() -> (drawn: Move)
    ensures
        Move::all_moves().contains(drawn),
{
    let moves = Move::all();
    match pick_from(&moves) {
        Some(drawn) => drawn,
        None => unreached(),
    }
}

} // verus!
