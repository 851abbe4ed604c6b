use snake_sim::direction::Direction;
use snake_sim::game::Game;
use snake_sim::game::GamePhase;
use snake_sim::grid::Cell;
use snake_sim::rules::TickOutcome;

const FAR_FOOD: Cell = Cell { x: -5, y: -5 };

fn cell(x: i32, y: i32) -> Cell {
    Cell { x, y }
}

/// A fresh game with the food parked away from the paths the tests walk.
fn game_with_far_food() -> Game {
    let mut g = Game::new();
    assert!(g.place_food(FAR_FOOD));
    g
}

#[test]
fn initial_state() {
    let g = Game::new();
    assert_eq!(g.phase(), GamePhase::Playing);
    assert_eq!(g.score(), 0);
    assert_eq!(g.snake_len(), 2);
    assert_eq!(g.snake_head(), cell(0, 0));
    assert_eq!(g.snake_segment(1), cell(0, -1));
    assert_eq!(g.direction(), Direction::Up);
}

#[test]
fn opposite_pairs() {
    assert_eq!(Direction::Left.opposite(), Direction::Right);
    assert_eq!(Direction::Right.opposite(), Direction::Left);
    assert_eq!(Direction::Up.opposite(), Direction::Down);
    assert_eq!(Direction::Down.opposite(), Direction::Up);
}

#[test]
fn reversal_request_is_ignored() {
    let dirs = [Direction::Left, Direction::Up, Direction::Right, Direction::Down];
    for &d in dirs.iter() {
        let mut g = game_with_far_food();
        // Steer onto d first (one quarter turn at a time, so nothing is
        // ignored on the way there).
        match d {
            Direction::Up => {}
            Direction::Left | Direction::Right => {
                g.apply_direction(d);
            }
            Direction::Down => {
                g.apply_direction(Direction::Left);
                g.apply_direction(Direction::Down);
            }
        }
        assert_eq!(g.direction(), d);
        g.apply_direction(d.opposite());
        assert_eq!(g.direction(), d);
    }
}

#[test]
fn plain_tick_translates_snake() {
    // Grid 24x24, initial snake length 2 at the centre facing Up: after one
    // tick the head sits one cell up, the tail on the former head cell.
    let mut g = game_with_far_food();
    let outcome = g.tick();
    assert_eq!(outcome, TickOutcome::Moved);
    assert_eq!(g.snake_len(), 2);
    assert_eq!(g.snake_head(), cell(0, 1));
    assert_eq!(g.snake_segment(1), cell(0, 0));
    assert_eq!(g.score(), 0);
    assert_eq!(g.phase(), GamePhase::Playing);
}

#[test]
fn eating_scores_at_once_and_grows_next_tick() {
    let mut g = game_with_far_food();
    assert!(g.place_food(cell(0, 1)));
    let outcome = g.tick();
    assert_eq!(outcome, TickOutcome::Ate);
    assert_eq!(g.score(), 1);
    // Growth is deferred: length unchanged on the eating tick.
    assert_eq!(g.snake_len(), 2);
    // Park the fresh food away from the path, then move once more.
    assert!(g.place_food(FAR_FOOD));
    let outcome = g.tick();
    assert_eq!(outcome, TickOutcome::Grew);
    assert_eq!(g.snake_len(), 3);
    assert_eq!(g.score(), 1);
    assert_eq!(g.snake_head(), cell(0, 2));
    assert_eq!(g.snake_segment(1), cell(0, 1));
    assert_eq!(g.snake_segment(2), cell(0, 0));
}

#[test]
fn food_in_path_scenario() {
    // Food placed directly in the snake's path, two cells ahead: after the
    // ticks that reach it the score is 1 and the length goes from 2 to 3.
    let mut g = game_with_far_food();
    assert!(g.place_food(cell(0, 2)));
    assert_eq!(g.tick(), TickOutcome::Moved);
    assert_eq!(g.tick(), TickOutcome::Ate);
    assert_eq!(g.score(), 1);
    assert_eq!(g.snake_len(), 2);
    assert!(g.place_food(FAR_FOOD));
    assert_eq!(g.tick(), TickOutcome::Grew);
    assert_eq!(g.snake_len(), 3);
    assert_eq!(g.score(), 1);
}

/// Grows the snake along the positive y axis until it is five cells long.
fn grow_to_five() -> Game {
    let mut g = Game::new();
    for i in 1..=3 {
        assert!(g.place_food(cell(0, i)));
        assert_eq!(g.tick(), TickOutcome::Ate);
    }
    assert!(g.place_food(FAR_FOOD));
    assert_eq!(g.tick(), TickOutcome::Grew);
    assert_eq!(g.snake_len(), 5);
    assert_eq!(g.score(), 3);
    assert_eq!(g.snake_head(), cell(0, 4));
    g
}

#[test]
fn self_collision_ends_game() {
    // A snake of length 5 makes a hook and bites its own body (a non-tail
    // cell): the game ends on that tick and nothing moves any more.
    let mut g = grow_to_five();
    g.apply_direction(Direction::Left);
    assert_eq!(g.tick(), TickOutcome::Moved);
    g.apply_direction(Direction::Down);
    assert_eq!(g.tick(), TickOutcome::Moved);
    assert_eq!(g.snake_head(), cell(-1, 3));
    g.apply_direction(Direction::Right);
    // Moving right lands on (0, 3), an interior body cell.
    assert_eq!(g.tick(), TickOutcome::GameOver);
    assert_eq!(g.phase(), GamePhase::GameOver);
    // The snake did not move onto the fatal cell.
    assert_eq!(g.snake_head(), cell(-1, 3));
    assert_eq!(g.snake_len(), 5);
    assert_eq!(g.score(), 3);
    // And stays frozen until a restart.
    assert_eq!(g.tick(), TickOutcome::Idle);
    assert_eq!(g.snake_head(), cell(-1, 3));
}

#[test]
fn moving_onto_vacating_tail_is_no_collision() {
    // With no growth pending, the tail cell is vacated by the same move, so
    // a length-4 snake may turn into it and live.
    let mut g = Game::new();
    for i in 1..=2 {
        assert!(g.place_food(cell(0, i)));
        assert_eq!(g.tick(), TickOutcome::Ate);
    }
    assert!(g.place_food(FAR_FOOD));
    assert_eq!(g.tick(), TickOutcome::Grew);
    assert_eq!(g.snake_len(), 4);
    // Cells now: (0,3) (0,2) (0,1) (0,0); walk a tight square turn.
    g.apply_direction(Direction::Left);
    assert_eq!(g.tick(), TickOutcome::Moved);
    g.apply_direction(Direction::Down);
    assert_eq!(g.tick(), TickOutcome::Moved);
    g.apply_direction(Direction::Right);
    assert_eq!(g.tick(), TickOutcome::Moved);
    // Cells: (0,2) (-1,2) (-1,3) (0,3); moving up enters (0,3) just as the
    // tail leaves it.
    g.apply_direction(Direction::Up);
    assert_eq!(g.tick(), TickOutcome::Moved);
    assert_eq!(g.phase(), GamePhase::Playing);
    assert_eq!(g.snake_head(), cell(0, 3));
}

#[test]
fn wall_collision_ends_game() {
    // Head at x = 11, the last column, moving further right dies; the grid
    // spans [-12, 12) on each axis.
    let mut g = game_with_far_food();
    g.apply_direction(Direction::Right);
    for _ in 0..11 {
        assert!(g.place_food(FAR_FOOD));
        assert_eq!(g.tick(), TickOutcome::Moved);
    }
    assert_eq!(g.snake_head(), cell(11, 0));
    assert_eq!(g.tick(), TickOutcome::GameOver);
    assert_eq!(g.phase(), GamePhase::GameOver);
    assert_eq!(g.snake_head(), cell(11, 0));
}

#[test]
fn bottom_wall_collision_ends_game() {
    let mut g = game_with_far_food();
    g.apply_direction(Direction::Left);
    g.apply_direction(Direction::Down);
    for _ in 0..12 {
        assert!(g.place_food(cell(5, 5)));
        assert_eq!(g.tick(), TickOutcome::Moved);
    }
    // The grid spans [-12, 12): y = -12 is the last row inside it.
    assert_eq!(g.snake_head(), cell(0, -12));
    assert_eq!(g.tick(), TickOutcome::GameOver);
    assert_eq!(g.phase(), GamePhase::GameOver);
}

#[test]
fn restart_resets_everything() {
    let mut g = grow_to_five();
    // Run into the right wall.
    g.apply_direction(Direction::Right);
    loop {
        assert!(g.place_food(FAR_FOOD));
        if g.tick() == TickOutcome::GameOver {
            break;
        }
    }
    assert_eq!(g.phase(), GamePhase::GameOver);
    assert!(g.score() > 0);
    g.restart();
    assert_eq!(g.phase(), GamePhase::Playing);
    assert_eq!(g.score(), 0);
    assert_eq!(g.snake_len(), 2);
    assert_eq!(g.snake_head(), cell(0, 0));
    assert_eq!(g.snake_segment(1), cell(0, -1));
    assert_eq!(g.direction(), Direction::Up);
}

#[test]
fn restart_outside_game_over_does_nothing() {
    let mut g = game_with_far_food();
    assert_eq!(g.tick(), TickOutcome::Moved);
    g.restart();
    assert_eq!(g.phase(), GamePhase::Playing);
    assert_eq!(g.snake_head(), cell(0, 1));
}

#[test]
fn pause_swaps_and_freezes() {
    let mut g = game_with_far_food();
    g.toggle_pause();
    assert_eq!(g.phase(), GamePhase::Paused);
    assert_eq!(g.tick(), TickOutcome::Idle);
    assert_eq!(g.snake_head(), cell(0, 0));
    g.toggle_pause();
    assert_eq!(g.phase(), GamePhase::Playing);
    assert_eq!(g.tick(), TickOutcome::Moved);
    assert_eq!(g.snake_head(), cell(0, 1));
}

#[test]
fn pause_leaves_game_over_alone() {
    let mut g = game_with_far_food();
    g.apply_direction(Direction::Right);
    for _ in 0..12 {
        assert!(g.place_food(FAR_FOOD));
        g.tick();
    }
    assert_eq!(g.phase(), GamePhase::GameOver);
    g.toggle_pause();
    assert_eq!(g.phase(), GamePhase::GameOver);
}

#[test]
fn direction_input_ignored_outside_playing() {
    let mut g = game_with_far_food();
    g.toggle_pause();
    g.apply_direction(Direction::Left);
    assert_eq!(g.direction(), Direction::Up);
    g.toggle_pause();
    g.apply_direction(Direction::Left);
    assert_eq!(g.direction(), Direction::Left);
}
