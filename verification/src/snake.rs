//! The snake: an ordered sequence of occupied cells, head first, together
//! with the direction of the next move and a deferred-growth flag.

use vstd::prelude::*;

use crate::direction::Direction;
use crate::grid::Cell;
use crate::grid::GRID_AREA;
use crate::grid::in_bounds;
use crate::grid::lemma_grid_capacity;
use crate::grid::neighbor;
use crate::grid::spec_in_bounds;
use crate::grid::spec_neighbor;
use crate::rules::self_collision;
use crate::rules::spec_self_collision;

verus! {

/// Mathematical model of a snake.
#[verifier::ext_equal]
pub ghost struct SnakeModel {
    /// The occupied cells, head first.
    pub cells: Seq<Cell>,
    /// The direction the next move takes.
    pub dir: Direction,
    /// Whether an eaten food's growth is still to be applied: when set, the
    /// next move keeps the tail cell and lengthens the snake by one.
    pub pending_growth: bool,
}

impl SnakeModel {
    /// Well-formedness: at least two cells, never more than the arena holds,
    /// no cell occupied twice, and every cell inside the arena.
    pub open spec fn wf(self) -> bool {
        &&& self.cells.len() >= 2
        &&& self.cells.len() <= GRID_AREA
        &&& self.cells.no_duplicates()
        &&& forall|i: int| 0 <= i < self.cells.len() ==> spec_in_bounds(#[trigger] self.cells[i])
    }

    /// The cell the head occupies.
    pub open spec fn head(self) -> Cell {
        self.cells[0]
    }

    /// The cell the next move puts the head on.
    pub open spec fn next_head(self) -> Cell {
        spec_neighbor(self.head(), self.dir)
    }

    /// Whether the next move leaves the arena.
    pub open spec fn hits_wall(self) -> bool {
        !spec_in_bounds(self.next_head())
    }

    /// Whether the next move lands on the snake's own body.
    pub open spec fn hits_self(self) -> bool {
        spec_self_collision(self.cells, self.next_head(), self.pending_growth)
    }

    /// Whether the next move is fatal, by wall or by body.
    pub open spec fn blocked(self) -> bool {
        self.hits_wall() || self.hits_self()
    }

    /// Direction update: the request is applied unless it is the exact
    /// reverse of the current direction, which would turn the head straight
    /// into the neighbouring segment and is ignored.
    pub open spec fn after_direction(self, requested: Direction) -> SnakeModel {
        if requested == self.dir.spec_opposite() {
            self
        } else {
            SnakeModel { dir: requested, ..self }
        }
    }

    /// One move: the head advances one cell in the current direction and
    /// each segment takes the cell its predecessor vacated.  The tail cell
    /// is dropped unless a growth was pending, in which case the snake keeps
    /// it and is one segment longer.  Any pending growth is consumed.
    pub open spec fn after_move(self) -> SnakeModel {
        let kept = if self.pending_growth {
            self.cells
        } else {
            self.cells.drop_last()
        };
        SnakeModel { cells: seq![self.next_head()] + kept, dir: self.dir, pending_growth: false }
    }

    /// The same snake with a growth queued for its next move.
    pub open spec fn with_growth_queued(self) -> SnakeModel {
        SnakeModel { pending_growth: true, ..self }
    }
}

/// A non-fatal move keeps the snake well-formed, and changes its length by
/// one exactly when a growth was pending.
pub proof fn lemma_after_move_wf(s: SnakeModel)
    requires
        s.wf(),
        !s.blocked(),
    ensures
        s.after_move().wf(),
        s.after_move().cells.len() == s.cells.len() + (if s.pending_growth {
            1int
        } else {
            0int
        }),
{
    let nh = s.next_head();
    let kept = if s.pending_growth {
        s.cells
    } else {
        s.cells.drop_last()
    };
    let moved = s.after_move().cells;
    assert(!kept.contains(nh));
    assert(forall|i: int| 0 <= i < kept.len() ==> kept[i] == #[trigger] s.cells[i]);
    assert forall|i: int, j: int|
        0 <= i < moved.len() && 0 <= j < moved.len() && i != j implies moved[i] != moved[j] by {
        if i == 0 {
            if moved[j] == nh {
                assert(kept[j - 1] == nh);
                assert(kept.contains(nh));
            }
        } else if j == 0 {
            if moved[i] == nh {
                assert(kept[i - 1] == nh);
                assert(kept.contains(nh));
            }
        } else {
            assert(moved[i] == s.cells[i - 1] && moved[j] == s.cells[j - 1]);
        }
    };
    assert(moved.no_duplicates());
    assert forall|i: int| 0 <= i < moved.len() implies spec_in_bounds(#[trigger] moved[i]) by {
        if i > 0 {
            assert(moved[i] == s.cells[i - 1]);
        }
    };
    lemma_grid_capacity(moved);
}

/// The snake of the executable simulation.
pub struct Snake {
    cells: Vec<Cell>,
    dir: Direction,
    pending_growth: bool,
}

impl View for Snake {
    type V = SnakeModel;

    closed spec fn view(&self) -> SnakeModel {
        SnakeModel { cells: self.cells@, dir: self.dir, pending_growth: self.pending_growth }
    }
}

/// The starting snake: two cells at the arena's centre, head on the centre
/// cell, tail right below it, facing up, no growth pending.
pub open spec fn initial_snake() -> SnakeModel {
    SnakeModel {
        cells: seq![Cell { x: 0, y: 0 }, Cell { x: 0, y: -1 as i32 }],
        dir: Direction::Up,
        pending_growth: false,
    }
}

impl Snake {
    /// Builds the starting snake.
    pub fn init() -> (s: Snake)
        ensures
            s@ == initial_snake(),
            s@.wf(),
    {
        let mut cells: Vec<Cell> = Vec::new();
        cells.push(Cell { x: 0, y: 0 });
        cells.push(Cell { x: 0, y: -1 });
        let s = Snake { cells, dir: Direction::Up, pending_growth: false };
        proof {
            assert(s@.cells =~= initial_snake().cells);
            assert(s@ =~= initial_snake());
        }
        s
    }

    /// How many cells the snake occupies.
    pub fn len(&self) -> (n: usize)
        ensures
            n == self@.cells.len(),
    {
        self.cells.len()
    }

    /// The cell the head occupies.
    pub fn head(&self) -> (c: Cell)
        requires
            self@.cells.len() >= 1,
        ensures
            c == self@.head(),
    {
        self.cells[0]
    }

    /// The cell occupied by the segment at position `i`, head first.
    pub fn segment(&self, i: usize) -> (c: Cell)
        requires
            i < self@.cells.len(),
        ensures
            c == self@.cells[i as int],
    {
        self.cells[i]
    }

    /// The direction the next move takes.
    pub fn direction(&self) -> (d: Direction)
        ensures
            d == self@.dir,
    {
        self.dir
    }

    /// Whether an eaten food's growth is still to be applied.
    pub fn growth_pending(&self) -> (p: bool)
        ensures
            p == self@.pending_growth,
    {
        self.pending_growth
    }

    /// Sets the direction of the next move, unless the request is the exact
    /// reverse of the current direction, which is ignored.
    pub fn apply_direction(&mut self, requested: Direction)
        ensures
            final(self)@ == old(self)@.after_direction(requested),
    {
        if requested != self.dir.opposite() {
            self.dir = requested;
        }
    }

    /// The cell the next move puts the head on.
    pub fn next_head(&self) -> (c: Cell)
        requires
            self@.wf(),
        ensures
            c == self@.next_head(),
    {
        neighbor(self.cells[0], self.dir)
    }

    /// Whether the next move is fatal, by wall or by body.
    pub fn will_collide(&self) -> (hit: bool)
        requires
            self@.wf(),
        ensures
            hit == self@.blocked(),
    {
        let nh = self.next_head();
        if !in_bounds(nh) {
            true
        } else {
            self_collision(&self.cells, nh, self.pending_growth)
        }
    }

    /// Performs one move; the caller must have ruled a collision out.
    pub fn advance(&mut self)
        requires
            old(self)@.wf(),
            !old(self)@.blocked(),
        ensures
            final(self)@ == old(self)@.after_move(),
            final(self)@.wf(),
    {
        let nh = self.next_head();
        if !self.pending_growth {
            self.cells.pop();
        }
        self.cells.insert(0, nh);
        self.pending_growth = false;
        proof {
            lemma_after_move_wf(old(self)@);
            assert(self.cells@ =~= old(self)@.after_move().cells);
            assert(self@ =~= old(self)@.after_move());
        }
    }

    /// A copy of the occupied cells, head first.
    pub fn cells_vec(&self) -> (v: Vec<Cell>)
        ensures
            v@ == self@.cells,
    {
        let mut v: Vec<Cell> = Vec::new();
        let mut i: usize = 0;
        while i < self.cells.len()
            invariant
                i <= self.cells@.len(),
                v@.len() == i,
                forall|j: int| 0 <= j < i ==> v@[j] == self.cells@[j],
            decreases self.cells@.len() - i,
        {
            v.push(self.cells[i]);
            i = i + 1;
        }
        proof {
            assert(v@ =~= self@.cells);
        }
        v
    }

    /// Queues a growth: the next move will keep the tail cell.
    pub fn queue_growth(&mut self)
        ensures
            final(self)@ == old(self)@.with_growth_queued(),
    {
        self.pending_growth = true;
    }
}

} // verus!
