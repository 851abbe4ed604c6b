use snake_sim::food::spawn_food;
use snake_sim::game::Game;
use snake_sim::game::GamePhase;
use snake_sim::grid::Cell;
use snake_sim::grid::GRID_AREA;
use snake_sim::grid::GRID_SIZE;
use snake_sim::grid::HALF_GRID;
use snake_sim::grid::in_bounds;

#[test]
fn grid_constants_fit_together() {
    assert_eq!(GRID_SIZE, 24);
    assert_eq!(HALF_GRID * 2, GRID_SIZE);
    assert_eq!(GRID_AREA, GRID_SIZE * GRID_SIZE);
}

#[test]
fn bounds_are_half_open() {
    assert!(in_bounds(Cell { x: -12, y: -12 }));
    assert!(in_bounds(Cell { x: 11, y: 11 }));
    assert!(in_bounds(Cell { x: 0, y: 0 }));
    assert!(!in_bounds(Cell { x: 12, y: 0 }));
    assert!(!in_bounds(Cell { x: 0, y: 12 }));
    assert!(!in_bounds(Cell { x: -13, y: 0 }));
    assert!(!in_bounds(Cell { x: 0, y: -13 }));
}

#[test]
fn spawned_food_is_always_inside_the_arena() {
    // The spawner leans on the random generator; every draw must land in
    // [-HALF_GRID, HALF_GRID) on both axes.
    for _ in 0..1_000 {
        let c = spawn_food();
        assert!(in_bounds(c));
    }
}

#[test]
fn spawned_food_covers_more_than_one_cell() {
    // A broken spawner that echoed a bound back would pin the food to one
    // spot; a thousand draws across 576 cells must hit at least two.
    let first = spawn_food();
    let mut saw_another = false;
    for _ in 0..1_000 {
        if spawn_food() != first {
            saw_another = true;
        }
    }
    assert!(saw_another);
}

#[test]
fn new_game_food_is_inside_the_arena() {
    for _ in 0..50 {
        let g = Game::new();
        assert!(in_bounds(g.food()));
    }
}

#[test]
fn place_food_rejects_cells_off_the_arena() {
    let mut g = Game::new();
    assert!(!g.place_food(Cell { x: 12, y: 0 }));
    assert!(!g.place_food(Cell { x: 0, y: -13 }));
    let before = g.food();
    assert!(!g.place_food(Cell { x: 99, y: 99 }));
    assert_eq!(g.food(), before);
    assert!(g.place_food(Cell { x: -12, y: 11 }));
    assert_eq!(g.food(), Cell { x: -12, y: 11 });
}

#[test]
fn snapshot_mirrors_the_state() {
    let mut g = Game::new();
    assert!(g.place_food(Cell { x: 3, y: 4 }));
    let s = g.render_snapshot();
    assert_eq!(s.cells.len(), 2);
    assert_eq!(s.cells[0], Cell { x: 0, y: 0 });
    assert_eq!(s.cells[1], Cell { x: 0, y: -1 });
    assert_eq!(s.food, Cell { x: 3, y: 4 });
    assert_eq!(s.score, 0);
    assert_eq!(s.phase, GamePhase::Playing);
}
