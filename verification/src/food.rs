//! The food spawner: picks a uniformly random cell inside the arena.
//!
//! As a matter of policy the spawner does not exclude cells occupied by the
//! snake's body, so food may legally appear underneath the snake; the player
//! sees it once the snake moves off that cell.

use vstd::prelude::*;

use crate::grid::Cell;
use crate::grid::HALF_GRID;
use crate::grid::spec_in_bounds;

verus! {

/// Relies on rand::random_range on an integer `lo..hi` range: a uniformly
/// random value in `[lo, hi)`, from the thread-local generator; it panics
/// only on an empty range.
#[verifier::external_body]
fn random_in_range(lo: i32, hi: i32) -> (r: i32)
    requires
        lo < hi,
    ensures
        lo <= r < hi,
{
    rand::random_range(lo..hi)
}

/// Picks a random cell inside the arena for a new food.
pub fn spawn_food() -> (c: Cell)
    ensures
        spec_in_bounds(c),
{
    let x = random_in_range(-HALF_GRID, HALF_GRID);
    let y = random_in_range(-HALF_GRID, HALF_GRID);
    Cell { x, y }
}

} // verus!
