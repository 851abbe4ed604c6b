//! The arena: discrete cells on a fixed square grid, and its bounds.
//!
//! A cell coordinate ranges over `[-HALF_GRID, HALF_GRID)` on each axis, so
//! the arena holds exactly `GRID_AREA` cells.

use vstd::prelude::*;
use vstd::set_lib::lemma_int_range;
use vstd::set_lib::lemma_len_subset;
use vstd::set_lib::set_int_range;

use crate::direction::Direction;

verus! {

/// Number of cells along each side of the square arena.
pub const GRID_SIZE: i32 = 24;

/// Half the side; coordinates range over `[-HALF_GRID, HALF_GRID)`.
pub const HALF_GRID: i32 = 12;

/// Total number of cells in the arena.
pub const GRID_AREA: i32 = 576;

/// One cell of the grid, addressed by its integer coordinates.
/// Equality is component-wise.
#[derive(Clone, Copy, Debug, PartialEq, Eq, Structural)]
pub struct Cell {
    pub x: i32,
    pub y: i32,
}

/// Whether a cell lies inside the arena.
pub open spec fn spec_in_bounds(c: Cell) -> bool {
    &&& -HALF_GRID <= c.x < HALF_GRID
    &&& -HALF_GRID <= c.y < HALF_GRID
}

/// Whether a cell lies inside the arena; a head outside it has hit the wall.
#[verifier::when_used_as_spec(spec_in_bounds)]
pub fn in_bounds(c: Cell) -> (r: bool)
    ensures
        r == spec_in_bounds(c),
{
    -HALF_GRID <= c.x && c.x < HALF_GRID && -HALF_GRID <= c.y && c.y < HALF_GRID
}

/// Offset along the x axis of one step in direction `d`.
pub open spec fn dx(d: Direction) -> int {
    match d {
        Direction::Left => -1,
        Direction::Right => 1,
        Direction::Up => 0,
        Direction::Down => 0,
    }
}

/// Offset along the y axis of one step in direction `d`.
pub open spec fn dy(d: Direction) -> int {
    match d {
        Direction::Left => 0,
        Direction::Right => 0,
        Direction::Up => 1,
        Direction::Down => -1,
    }
}

/// The cell one grid unit away from `c` in direction `d`.
pub open spec fn spec_neighbor(c: Cell, d: Direction) -> Cell {
    Cell { x: (c.x + dx(d)) as i32, y: (c.y + dy(d)) as i32 }
}

/// The cell one grid unit away from `c` in direction `d`.
#[verifier::when_used_as_spec(spec_neighbor)]
pub fn neighbor(c: Cell, d: Direction) -> (r: Cell)
    requires
        spec_in_bounds(c),
    ensures
        r == spec_neighbor(c, d),
{
    match d {
        Direction::Left => Cell { x: c.x - 1, y: c.y },
        Direction::Right => Cell { x: c.x + 1, y: c.y },
        Direction::Up => Cell { x: c.x, y: c.y + 1 },
        Direction::Down => Cell { x: c.x, y: c.y - 1 },
    }
}

/// A numbering of the arena's cells: row-major order, `0` for the
/// bottom-left corner.  Injective on in-bounds cells.
pub open spec fn cell_index(c: Cell) -> int {
    (c.x + HALF_GRID) * (GRID_SIZE as int) + (c.y + HALF_GRID)
}

/// Two distinct in-bounds cells never share a cell number.
pub proof fn lemma_cell_index_injective(a: Cell, b: Cell)
    requires
        spec_in_bounds(a),
        spec_in_bounds(b),
        a != b,
    ensures
        cell_index(a) != cell_index(b),
{
    if cell_index(a) == cell_index(b) {
        assert((a.x - b.x) * (GRID_SIZE as int) == (b.y + HALF_GRID) - (a.y + HALF_GRID))
            by (nonlinear_arith)
            requires
                cell_index(a) == cell_index(b),
        {};
        assert(a.x == b.x) by (nonlinear_arith)
            requires
                (a.x - b.x) * (GRID_SIZE as int) == (b.y + HALF_GRID) - (a.y + HALF_GRID),
                -HALF_GRID <= a.y < HALF_GRID,
                -HALF_GRID <= b.y < HALF_GRID,
        {};
    }
}

/// The cell number of an in-bounds cell lies in `[0, GRID_AREA)`.
pub proof fn lemma_cell_index_in_range(c: Cell)
    requires
        spec_in_bounds(c),
    ensures
        0 <= cell_index(c) < GRID_AREA,
{
    assert(0 <= cell_index(c) < GRID_AREA) by (nonlinear_arith)
        requires
            -HALF_GRID <= c.x < HALF_GRID,
            -HALF_GRID <= c.y < HALF_GRID,
    {};
}

/// The arena is finite: no more than `GRID_AREA` distinct in-bounds cells
/// can exist at once, whatever sequence holds them.
pub proof fn lemma_grid_capacity(cells: Seq<Cell>)
    requires
        cells.no_duplicates(),
        forall|i: int| 0 <= i < cells.len() ==> spec_in_bounds(#[trigger] cells[i]),
    ensures
        cells.len() <= GRID_AREA,
{
    let indices = cells.map_values(|c: Cell| cell_index(c));
    assert forall|i: int, j: int|
        0 <= i < indices.len() && 0 <= j < indices.len() && i != j implies indices[i]
        != indices[j] by {
        lemma_cell_index_injective(cells[i], cells[j]);
    };
    assert(indices.no_duplicates());
    indices.unique_seq_to_set();
    assert forall|v: int| indices.to_set().contains(v) implies set_int_range(
        0,
        GRID_AREA as int,
    ).contains(v) by {
        let i = choose|i: int| 0 <= i < indices.len() && indices[i] == v;
        lemma_cell_index_in_range(cells[i]);
    };
    lemma_int_range(0, GRID_AREA as int);
    lemma_len_subset(indices.to_set(), set_int_range(0, GRID_AREA as int));
}

} // verus!
