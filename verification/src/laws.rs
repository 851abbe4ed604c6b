//! The laws the simulation obeys, each stated over the model and proved.

use vstd::prelude::*;

use crate::game::GameModel;
use crate::game::GamePhase;
use crate::game::initial_game;
use crate::game::spec_eats;
use crate::game::spec_restart;
use crate::game::spec_tick;
use crate::grid::Cell;
use crate::grid::spec_in_bounds;
use crate::grid::spec_neighbor;
use crate::snake::SnakeModel;
use crate::snake::initial_snake;

verus! {

/// Requesting the exact reverse of the current direction leaves the
/// direction — and the whole snake — unchanged.
pub proof fn lemma_reversal_ignored(s: SnakeModel)
    ensures
        s.after_direction(s.dir.spec_opposite()) == s,
{
}

/// A tick keeps the simulation well-formed, whatever in-bounds cell the
/// food spawner returns.
pub proof fn lemma_tick_preserves_wf(g: GameModel, f: Cell)
    requires
        g.wf(),
        spec_in_bounds(f),
    ensures
        spec_tick(g, f).wf(),
{
    if g.phase == GamePhase::Playing && !g.snake.blocked() {
        crate::snake::lemma_after_move_wf(g.snake);
    }
}

/// A tick that neither collides nor eats keeps the snake's length, and
/// shifts its shape by exactly one cell in the current direction: the head
/// advances one cell and every segment takes the cell its predecessor held.
/// Score, food and phase stay as they were.
pub proof fn lemma_plain_tick_translates(g: GameModel, f: Cell)
    requires
        g.wf(),
        g.phase == GamePhase::Playing,
        !g.snake.blocked(),
        g.snake.next_head() != g.food,
        !g.snake.pending_growth,
    ensures
        spec_tick(g, f).snake.cells.len() == g.snake.cells.len(),
        spec_tick(g, f).snake.head() == spec_neighbor(g.snake.head(), g.snake.dir),
        forall|i: int|
            1 <= i < g.snake.cells.len() ==> #[trigger] spec_tick(g, f).snake.cells[i]
                == g.snake.cells[i - 1],
        spec_tick(g, f).score == g.score,
        spec_tick(g, f).food == g.food,
        spec_tick(g, f).phase == GamePhase::Playing,
{
}

/// Eating raises the score by one at once, while the growth is deferred:
/// the snake's length is unchanged on the eating tick and rises by exactly
/// one on the next tick, provided that next move is not fatal.
pub proof fn lemma_eating_scores_then_grows(g: GameModel, f1: Cell, f2: Cell)
    requires
        g.wf(),
        spec_eats(g),
        !g.snake.pending_growth,
        !spec_tick(g, f1).snake.blocked(),
    ensures
        spec_tick(g, f1).score == g.score + 1,
        spec_tick(g, f1).snake.cells.len() == g.snake.cells.len(),
        spec_tick(g, f1).snake.pending_growth,
        spec_tick(spec_tick(g, f1), f2).snake.cells.len() == g.snake.cells.len() + 1,
{
}

/// Once the game is over no tick changes anything until a restart.
pub proof fn lemma_game_over_stays(g: GameModel, f: Cell)
    requires
        g.phase == GamePhase::GameOver,
    ensures
        spec_tick(g, f) == g,
{
}

/// A snake that moves into any of its own non-tail body cells dies on that
/// tick: the game is over and the snake did not move.
pub proof fn lemma_self_collision_ends_game(g: GameModel, f: Cell, i: int)
    requires
        g.wf(),
        g.phase == GamePhase::Playing,
        g.snake.cells.len() >= 4,
        1 <= i < g.snake.cells.len() - 1,
        g.snake.next_head() == g.snake.cells[i],
    ensures
        spec_tick(g, f).phase == GamePhase::GameOver,
        spec_tick(g, f).snake == g.snake,
        spec_tick(g, f).score == g.score,
{
    assert(g.snake.cells.drop_last()[i] == g.snake.cells[i]);
    assert(g.snake.cells.drop_last().contains(g.snake.next_head()));
    assert(g.snake.cells.contains(g.snake.next_head()));
}

/// A head moving off the arena dies on that tick: the game is over and the
/// snake did not move.
pub proof fn lemma_wall_collision_ends_game(g: GameModel, f: Cell)
    requires
        g.wf(),
        g.phase == GamePhase::Playing,
        !spec_in_bounds(spec_neighbor(g.snake.head(), g.snake.dir)),
    ensures
        spec_tick(g, f).phase == GamePhase::GameOver,
        spec_tick(g, f).snake == g.snake,
        spec_tick(g, f).score == g.score,
{
}

/// A restart from GameOver resets the score to zero and the snake to its
/// initial length, position and direction, and play resumes at once.
pub proof fn lemma_restart_resets(g: GameModel, f: Cell)
    requires
        g.phase == GamePhase::GameOver,
        spec_in_bounds(f),
    ensures
        spec_restart(g, f).score == 0,
        spec_restart(g, f).snake == initial_snake(),
        spec_restart(g, f).snake.cells.len() == 2,
        spec_restart(g, f).phase == GamePhase::Playing,
        spec_restart(g, f) == initial_game(f),
        spec_restart(g, f).wf(),
{
}

} // verus!
