//! The simulation itself: the rules engine that moves the snake each tick,
//! the Playing / Paused / GameOver state machine, the scoreboard, and the
//! per-frame driver that ties them to the movement timer.

use vstd::prelude::*;

use crate::direction::Direction;
use crate::food::spawn_food;
use crate::grid::Cell;
use crate::grid::in_bounds;
use crate::grid::spec_in_bounds;
use crate::rules::TickOutcome;
use crate::snake::Snake;
use crate::snake::SnakeModel;
use crate::snake::initial_snake;
use crate::timer::MOVE_INTERVAL_MS;
use crate::timer::MoveTimer;
use crate::timer::spec_timer_after;
use crate::timer::spec_timer_fires;

verus! {

/// The phase the game is in; exactly one at a time.
#[derive(Clone, Copy, Debug, PartialEq, Eq, Structural)]
pub enum GamePhase {
    /// The snake moves and input is honoured.
    Playing,
    /// The simulation stands still until the pause key is pressed again.
    Paused,
    /// A collision ended the game; only a restart leaves this phase.
    GameOver,
}

/// The pause key's effect on a phase: Playing and Paused swap; GameOver is
/// left alone.
pub open spec fn spec_toggled(p: GamePhase) -> GamePhase {
    match p {
        GamePhase::Playing => GamePhase::Paused,
        GamePhase::Paused => GamePhase::Playing,
        GamePhase::GameOver => GamePhase::GameOver,
    }
}

/// The one-shot input signals collected for one frame.
#[derive(Clone, Copy, Debug)]
pub struct FrameInput {
    /// The direction intent currently pressed, if any.
    pub direction: Option<Direction>,
    /// Whether the pause key was just pressed.
    pub pause_pressed: bool,
    /// Whether the restart key was just pressed.
    pub restart_pressed: bool,
}

/// Mathematical model of the whole simulation.
#[verifier::ext_equal]
pub ghost struct GameModel {
    /// The snake.
    pub snake: SnakeModel,
    /// The single active food cell.
    pub food: Cell,
    /// The score: one point per food eaten since the last restart.
    pub score: int,
    /// The phase the game is in.
    pub phase: GamePhase,
    /// Milliseconds accumulated towards the next movement interval.
    pub timer_ms: int,
}

impl GameModel {
    /// Well-formedness: the snake is well-formed, the food lies inside the
    /// arena, the score equals the length the snake has gained (counting a
    /// still-pending growth), and the timer holds less than one interval.
    pub open spec fn wf(self) -> bool {
        &&& self.snake.wf()
        &&& spec_in_bounds(self.food)
        &&& self.score == self.snake.cells.len() - 2 + (if self.snake.pending_growth {
            1int
        } else {
            0int
        })
        &&& 0 <= self.timer_ms < MOVE_INTERVAL_MS
    }

    /// The same game in phase `p`.
    pub open spec fn with_phase(self, p: GamePhase) -> GameModel {
        GameModel { phase: p, ..self }
    }

    /// The same game with snake `s`.
    pub open spec fn with_snake(self, s: SnakeModel) -> GameModel {
        GameModel { snake: s, ..self }
    }

    /// The same game with the food on `f`.
    pub open spec fn with_food(self, f: Cell) -> GameModel {
        GameModel { food: f, ..self }
    }

    /// The same game with `t` milliseconds accumulated.
    pub open spec fn with_timer(self, t: int) -> GameModel {
        GameModel { timer_ms: t, ..self }
    }
}

/// The model of a freshly started game whose food sits on `f`: the starting
/// snake, score zero, phase Playing, an empty timer.
pub open spec fn initial_game(f: Cell) -> GameModel {
    GameModel {
        snake: initial_snake(),
        food: f,
        score: 0,
        phase: GamePhase::Playing,
        timer_ms: 0,
    }
}

/// Whether the next tick of `g` eats the food: the game is Playing, the move
/// is not fatal, and it lands the head on the food cell.
pub open spec fn spec_eats(g: GameModel) -> bool {
    &&& g.phase == GamePhase::Playing
    &&& !g.snake.blocked()
    &&& g.snake.next_head() == g.food
}

/// One movement tick.  Outside the Playing phase nothing happens.  A fatal
/// move ends the game and the snake stays in its pre-move configuration; no
/// growth is applied once the game is over.  Otherwise the snake moves, and
/// if it lands on the food the score rises by one, a growth is queued for
/// the next tick, and the food respawns on `new_food` — the cell the random
/// spawner returns, which a fresh food takes whether or not the snake's body
/// covers it.
pub open spec fn spec_tick(g: GameModel, new_food: Cell) -> GameModel {
    if g.phase != GamePhase::Playing {
        g
    } else if g.snake.blocked() {
        g.with_phase(GamePhase::GameOver)
    } else {
        let moved = g.snake.after_move();
        if g.snake.next_head() == g.food {
            GameModel {
                snake: moved.with_growth_queued(),
                food: new_food,
                score: g.score + 1,
                phase: g.phase,
                timer_ms: g.timer_ms,
            }
        } else {
            g.with_snake(moved)
        }
    }
}

/// What one movement tick of `g` reports.
pub open spec fn spec_tick_outcome(g: GameModel) -> TickOutcome {
    if g.phase != GamePhase::Playing {
        TickOutcome::Idle
    } else if g.snake.blocked() {
        TickOutcome::GameOver
    } else if g.snake.next_head() == g.food {
        TickOutcome::Ate
    } else if g.snake.pending_growth {
        TickOutcome::Grew
    } else {
        TickOutcome::Moved
    }
}

/// The restart key's effect: from GameOver the whole state is rebuilt from
/// scratch — starting snake, score zero, food on `new_food`, phase Playing;
/// in any other phase nothing happens.
pub open spec fn spec_restart(g: GameModel, new_food: Cell) -> GameModel {
    if g.phase == GamePhase::GameOver {
        initial_game(new_food)
    } else {
        g
    }
}

/// The direction intent's effect: honoured only while Playing, and then
/// subject to the no-reversal rule.
pub open spec fn spec_apply_direction(g: GameModel, requested: Direction) -> GameModel {
    if g.phase == GamePhase::Playing {
        g.with_snake(g.snake.after_direction(requested))
    } else {
        g
    }
}

/// One frame of the simulation.  The pause key acts first.  If the game is
/// then Playing, the direction intent is applied, the timer accumulates the
/// frame's elapsed time, and a crossed interval triggers one movement tick.
/// A restart is honoured only when the game stands at GameOver as the frame
/// begins (a game lost by this very frame's tick restarts on the next one).
/// While not Playing the timer does not accumulate.
pub open spec fn spec_step(g: GameModel, input: FrameInput, elapsed_ms: int, new_food: Cell) -> GameModel {
    let paused = if input.pause_pressed {
        g.with_phase(spec_toggled(g.phase))
    } else {
        g
    };
    if paused.phase == GamePhase::Playing {
        let steered = match input.direction {
            Some(d) => spec_apply_direction(paused, d),
            None => paused,
        };
        let fired = spec_timer_fires(steered.timer_ms, elapsed_ms);
        let timed = steered.with_timer(spec_timer_after(steered.timer_ms, elapsed_ms));
        if fired {
            spec_tick(timed, new_food)
        } else {
            timed
        }
    } else if paused.phase == GamePhase::GameOver && input.restart_pressed {
        initial_game(new_food)
    } else {
        paused
    }
}

/// What the presentation layer needs to draw one frame: the snake's cells
/// head first (the first entry is the head, the rest are body segments),
/// the food cell, the score, and the phase.
pub struct RenderSnapshot {
    /// The snake's occupied cells, head first.
    pub cells: Vec<Cell>,
    /// The active food cell.
    pub food: Cell,
    /// The current score.
    pub score: u32,
    /// The phase the game is in.
    pub phase: GamePhase,
}

/// The running simulation: one snake, one food, the score, the phase, and
/// the movement timer, all owned as plain values.
pub struct Game {
    snake: Snake,
    food: Cell,
    score: u32,
    phase: GamePhase,
    timer: MoveTimer,
}

impl View for Game {
    type V = GameModel;

    closed spec fn view(&self) -> GameModel {
        GameModel {
            snake: self.snake@,
            food: self.food,
            score: self.score as int,
            phase: self.phase,
            timer_ms: self.timer@,
        }
    }
}

impl Game {
    /// Starts a new game: the starting snake, score zero, phase Playing, and
    /// a food freshly spawned somewhere in the arena.
    pub fn new() -> (g: Game)
        ensures
            g@.wf(),
            g@ == initial_game(g@.food),
    {
        let g = Game {
            snake: Snake::init(),
            food: spawn_food(),
            score: 0,
            phase: GamePhase::Playing,
            timer: MoveTimer::new(),
        };
        proof {
            assert(g@ =~= initial_game(g@.food));
        }
        g
    }

    /// One movement tick, as fired by the timer.
    pub fn tick(&mut self) -> (outcome: TickOutcome)
        requires
            old(self)@.wf(),
        ensures
            final(self)@.wf(),
            final(self)@ == spec_tick(old(self)@, final(self)@.food),
            outcome == spec_tick_outcome(old(self)@),
    {
        if self.phase != GamePhase::Playing {
            return TickOutcome::Idle;
        }
        if self.snake.will_collide() {
            self.phase = GamePhase::GameOver;
            proof {
                assert(self@ =~= spec_tick(old(self)@, self@.food));
            }
            return TickOutcome::GameOver;
        }
        let grew = self.snake.growth_pending();
        self.snake.advance();
        if self.snake.head() == self.food {
            self.score = self.score + 1;
            self.snake.queue_growth();
            self.food = spawn_food();
            proof {
                assert(self@ =~= spec_tick(old(self)@, self@.food));
            }
            return TickOutcome::Ate;
        }
        proof {
            assert(self@ =~= spec_tick(old(self)@, self@.food));
        }
        if grew {
            TickOutcome::Grew
        } else {
            TickOutcome::Moved
        }
    }

    /// The pause key: swaps Playing and Paused, leaves GameOver alone.
    pub fn toggle_pause(&mut self)
        requires
            old(self)@.wf(),
        ensures
            final(self)@.wf(),
            final(self)@ == old(self)@.with_phase(spec_toggled(old(self)@.phase)),
    {
        match self.phase {
            GamePhase::Playing => self.phase = GamePhase::Paused,
            GamePhase::Paused => self.phase = GamePhase::Playing,
            GamePhase::GameOver => {},
        }
    }

    /// The restart key: from GameOver, rebuilds the whole state from scratch
    /// before play resumes; in any other phase it does nothing.
    pub fn restart(&mut self)
        requires
            old(self)@.wf(),
        ensures
            final(self)@.wf(),
            final(self)@ == spec_restart(old(self)@, final(self)@.food),
    {
        if self.phase == GamePhase::GameOver {
            *self = Game::new();
        }
    }

    /// A direction intent from the player, honoured only while Playing.
    pub fn apply_direction(&mut self, requested: Direction)
        requires
            old(self)@.wf(),
        ensures
            final(self)@.wf(),
            final(self)@ == spec_apply_direction(old(self)@, requested),
    {
        if self.phase == GamePhase::Playing {
            self.snake.apply_direction(requested);
        }
    }

    /// Moves the food to `c` if that cell lies in the arena; says whether it
    /// did.  Meant for callers that manage food placement themselves.
    pub fn place_food(&mut self, c: Cell) -> (placed: bool)
        requires
            old(self)@.wf(),
        ensures
            final(self)@.wf(),
            placed == spec_in_bounds(c),
            placed ==> final(self)@ == old(self)@.with_food(c),
            !placed ==> final(self)@ == old(self)@,
    {
        if in_bounds(c) {
            self.food = c;
            true
        } else {
            false
        }
    }

    /// One frame: feeds the input signals and the frame's elapsed time to
    /// the simulation, moving the snake once if the movement interval was
    /// crossed while Playing.
    pub fn step(&mut self, input: FrameInput, elapsed_ms: u32)
        requires
            old(self)@.wf(),
        ensures
            final(self)@.wf(),
            final(self)@ == spec_step(old(self)@, input, elapsed_ms as int, final(self)@.food),
    {
        if input.pause_pressed {
            self.toggle_pause();
        }
        if self.phase == GamePhase::Playing {
            if let Some(d) = input.direction {
                self.apply_direction(d);
            }
            let fired = self.timer.advance(elapsed_ms);
            if fired {
                self.tick();
            }
            proof {
                assert(self@ =~= spec_step(old(self)@, input, elapsed_ms as int, self@.food));
            }
        } else if self.phase == GamePhase::GameOver && input.restart_pressed {
            self.restart();
            proof {
                assert(self@ =~= spec_step(old(self)@, input, elapsed_ms as int, self@.food));
            }
        } else {
            proof {
                assert(self@ =~= spec_step(old(self)@, input, elapsed_ms as int, self@.food));
            }
        }
    }

    /// The current score.
    pub fn score(&self) -> (s: u32)
        ensures
            s as int == self@.score,
    {
        self.score
    }

    /// The phase the game is in.
    pub fn phase(&self) -> (p: GamePhase)
        ensures
            p == self@.phase,
    {
        self.phase
    }

    /// The cell the food sits on.
    pub fn food(&self) -> (c: Cell)
        ensures
            c == self@.food,
    {
        self.food
    }

    /// The direction the snake's next move takes.
    pub fn direction(&self) -> (d: Direction)
        ensures
            d == self@.snake.dir,
    {
        self.snake.direction()
    }

    /// How many cells the snake occupies.
    pub fn snake_len(&self) -> (n: usize)
        ensures
            n == self@.snake.cells.len(),
    {
        self.snake.len()
    }

    /// The cell the snake's head occupies.
    pub fn snake_head(&self) -> (c: Cell)
        requires
            self@.wf(),
        ensures
            c == self@.snake.head(),
    {
        self.snake.head()
    }

    /// The render snapshot of the current state.
    pub fn render_snapshot(&self) -> (s: RenderSnapshot)
        ensures
            s.cells@ == self@.snake.cells,
            s.food == self@.food,
            s.score as int == self@.score,
            s.phase == self@.phase,
    {
        RenderSnapshot {
            cells: self.snake.cells_vec(),
            food: self.food,
            score: self.score,
            phase: self.phase,
        }
    }

    /// The cell occupied by the snake's segment at position `i`, head first.
    pub fn snake_segment(&self, i: usize) -> (c: Cell)
        requires
            i < self@.snake.cells.len(),
        ensures
            c == self@.snake.cells[i as int],
    {
        self.snake.segment(i)
    }
}

} // verus!
