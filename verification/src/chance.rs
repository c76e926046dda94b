//! The one source of chance in the game: where the next food lands.

use vstd::prelude::*;
use rand::Rng;
use crate::board::Board;
use crate::geometry::Position;

verus! {

/// Draws from `low..high` with `rand::Rng::gen_range`, on the generator that
/// `rand::thread_rng` hands out.
///
/// Trusted: `gen_range` panics on an empty range, which `requires` rules out,
/// and for integers it returns a value of the half-open range. Which value is
/// left open: two draws from one range may differ. `thread_rng` fails only
/// where the operating system has no entropy to seed it with, which no
/// argument can rule out.
#[verifier::external_body]
fn draw_in_range(low: u16, high: u16) -> (r: u16)
    requires
        low < high,
    ensures
        low <= r < high,
{
    rand::thread_rng().gen_range(low..high)
}

/// Draws a cell of the board's interior, each coordinate on its own.
pub fn random_interior_cell(board: &Board) -> (p: Position)
    requires
        board@.wf(),
    ensures
        board@.contains(p),
{
    let x = draw_in_range(1, board.width());
    let y = draw_in_range(1, board.height());
    Position { x, y }
}

} // verus!
