//! Collision rules: what a move of the head may hit, and the outcome of a
//! tick.

use vstd::prelude::*;

use crate::grid::Cell;

verus! {

/// What one simulation tick did.
#[derive(Clone, Copy, Debug, PartialEq, Eq, Structural)]
pub enum TickOutcome {
    /// The simulation was not in the Playing phase: nothing moved.
    Idle,
    /// The snake moved one cell and nothing else happened.
    Moved,
    /// The snake moved and a deferred growth was applied: it is one segment
    /// longer than before the tick.
    Grew,
    /// The snake moved onto the food: the score rose by one and a growth is
    /// now pending for the next tick.
    Ate,
    /// The move would have hit a wall or the snake's own body: the game is
    /// over and the snake did not move.
    GameOver,
}

/// Whether moving the head onto `target` hits the snake's own body.
///
/// `body` is the pre-move sequence of occupied cells, head first.  When no
/// growth is pending, the tail cell is vacated by the very move under test,
/// so moving onto it is no collision; when a growth is pending the tail
/// stays put and counts like any other segment.
pub open spec fn spec_self_collision(body: Seq<Cell>, target: Cell, tail_stays: bool) -> bool {
    if tail_stays {
        body.contains(target)
    } else {
        body.drop_last().contains(target)
    }
}

/// Whether moving the head onto `target` hits the snake's own body.
pub fn self_collision(body: &Vec<Cell>, target: Cell, tail_stays: bool) -> (hit: bool)
    requires
        body@.len() >= 1,
    ensures
        hit == spec_self_collision(body@, target, tail_stays),
{
    let limit: usize = if tail_stays {
        body.len()
    } else {
        body.len() - 1
    };
    let mut i: usize = 0;
    while i < limit
        invariant
            body@.len() >= 1,
            limit == if tail_stays {
                body@.len() as int
            } else {
                body@.len() - 1
            },
            i <= limit,
            forall|j: int| 0 <= j < i ==> body@[j] != target,
        decreases limit - i,
    {
        if body[i] == target {
            proof {
                if !tail_stays {
                    assert(body@.drop_last()[i as int] == target);
                }
            }
            return true;
        }
        i = i + 1;
    }
    proof {
        if !tail_stays {
            assert forall|j: int| 0 <= j < body@.drop_last().len() implies body@.drop_last()[j]
                != target by {
                assert(body@.drop_last()[j] == body@[j]);
            };
        }
    }
    false
}

} // verus!
