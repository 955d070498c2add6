//! Scenario and unit tests of the simulation core, driven through the
//! public step functions with a chosen spawn cell where determinism matters.

use snek_core::geometry::Direction;
use snek_core::geometry::Position;
use snek_core::state::GameState;
use snek_core::timer::RepeatingTimer;

fn pos(x: i32, y: i32) -> Position {
    Position { x, y }
}

/// A well-formed state with the given segments and heading and nothing else
/// going on.
fn state_with(segments: Vec<Position>, direction: Direction) -> GameState {
    let mut g = GameState::new();
    g.segments = segments;
    g.direction = direction;
    g
}

/// An arbitrary in-bounds spawn cell for ticks where the spawn timer cannot
/// fire, kept away from the cells the tests look at.
const IDLE_CELL: Position = Position { x: 0, y: 0 };

#[test]
fn opposite_pairs_up_with_left_right_and_up_down() {
    assert_eq!(Direction::Left.opposite(), Direction::Right);
    assert_eq!(Direction::Right.opposite(), Direction::Left);
    assert_eq!(Direction::Up.opposite(), Direction::Down);
    assert_eq!(Direction::Down.opposite(), Direction::Up);
}

#[test]
fn opposite_is_an_involution() {
    for d in [Direction::Left, Direction::Right, Direction::Up, Direction::Down] {
        assert_eq!(d.opposite().opposite(), d);
        assert_ne!(d.opposite(), d);
    }
}

#[test]
fn timer_accumulates_and_fires_at_its_period() {
    let mut t = RepeatingTimer::new(200);
    assert!(!t.tick(100));
    assert_eq!(t.elapsed_ms, 100);
    assert!(t.tick(100));
    assert_eq!(t.elapsed_ms, 0);
    assert!(!t.tick(199));
    assert!(t.tick(250));
    assert_eq!(t.elapsed_ms, 0);
}

#[test]
fn fresh_game_has_the_two_segment_snake_heading_up() {
    let g = GameState::new();
    assert_eq!(g.segments, vec![pos(10, 6), pos(10, 5)]);
    assert_eq!(g.direction, Direction::Up);
    assert!(g.foods.is_empty());
    assert_eq!(g.last_tail, None);
    assert_eq!(g.prev_direction, None);
    assert_eq!(g.growth_pending, 0);
    assert_eq!(g.game_over_pending, 0);
}

#[test]
fn move_fire_advances_head_and_tail_follows() {
    // Snake at [(10,6) head facing Up, (10,5)], request Up, one move fire.
    let mut g = GameState::new();
    g.step_with_cell(Some(Direction::Up), 200, IDLE_CELL);
    assert_eq!(g.segments, vec![pos(10, 7), pos(10, 6)]);
    assert_eq!(g.direction, Direction::Up);
    assert_eq!(g.last_tail, Some(pos(10, 5)));
}

#[test]
fn no_fire_keeps_every_segment_in_place() {
    let mut g = GameState::new();
    g.step_with_cell(None, 150, IDLE_CELL);
    assert_eq!(g.segments, vec![pos(10, 6), pos(10, 5)]);
    g.step_with_cell(Some(Direction::Left), 49, IDLE_CELL);
    assert_eq!(g.segments, vec![pos(10, 6), pos(10, 5)]);
}

#[test]
fn wall_hit_emits_game_over_and_resets() {
    // Head at (0,0) facing Left: the move leaves the arena and the reaction
    // rebuilds the snake at its start.
    let mut g = state_with(vec![pos(0, 0), pos(0, 1)], Direction::Left);
    g.step_with_cell(None, 200, IDLE_CELL);
    assert_eq!(g.segments, vec![pos(10, 6), pos(10, 5)]);
    assert_eq!(g.direction, Direction::Up);
    assert!(g.foods.is_empty());
    assert_eq!(g.last_tail, None);
    assert_eq!(g.game_over_pending, 0);
}

#[test]
fn self_hit_emits_game_over_and_resets() {
    // The head at (5,5) facing Right runs into (6,5), a cell the body held
    // before the move.
    let mut g = state_with(
        vec![pos(5, 5), pos(5, 6), pos(6, 6), pos(6, 5)],
        Direction::Right,
    );
    g.step_with_cell(None, 200, IDLE_CELL);
    assert_eq!(g.segments, vec![pos(10, 6), pos(10, 5)]);
    assert_eq!(g.direction, Direction::Up);
}

#[test]
fn eaten_food_grows_the_snake_on_the_next_tick() {
    // Food on the cell the head moves into: the food disappears, a growth
    // signal is emitted, and the next tick appends a segment at the vacated
    // tail cell.
    let mut g = GameState::new();
    g.foods = vec![pos(10, 7)];
    g.step_with_cell(None, 200, IDLE_CELL);
    assert!(g.foods.is_empty());
    assert_eq!(g.growth_pending, 1);
    assert_eq!(g.segments, vec![pos(10, 7), pos(10, 6)]);
    g.step_with_cell(None, 0, IDLE_CELL);
    assert_eq!(g.segments, vec![pos(10, 7), pos(10, 6), pos(10, 5)]);
    assert_eq!(g.growth_pending, 0);
}

#[test]
fn coincident_foods_are_eaten_together_and_grow_once() {
    let mut g = GameState::new();
    g.foods = vec![pos(10, 7), pos(3, 3), pos(10, 7)];
    g.step_with_cell(None, 200, IDLE_CELL);
    assert_eq!(g.foods, vec![pos(3, 3)]);
    assert_eq!(g.growth_pending, 2);
    g.step_with_cell(None, 0, IDLE_CELL);
    assert_eq!(g.segments.len(), 3);
    assert_eq!(g.growth_pending, 0);
}

#[test]
fn reversal_request_is_rejected_within_one_tick() {
    // Up -> Down in a single tick: the candidate is the opposite of the
    // current heading, so the head continues Up.
    let mut g = GameState::new();
    g.step_with_cell(Some(Direction::Down), 200, IDLE_CELL);
    assert_eq!(g.direction, Direction::Up);
    assert_eq!(g.segments[0], pos(10, 7));
}

#[test]
fn turn_is_rejected_before_any_move_was_applied() {
    // Until a first move records a heading, every requested turn is refused.
    let mut g = GameState::new();
    g.step_with_cell(Some(Direction::Left), 0, IDLE_CELL);
    assert_eq!(g.direction, Direction::Up);
}

#[test]
fn turn_is_accepted_once_a_heading_was_applied() {
    let mut g = GameState::new();
    g.step_with_cell(None, 200, IDLE_CELL);
    assert_eq!(g.prev_direction, Some(Direction::Up));
    g.step_with_cell(Some(Direction::Left), 200, IDLE_CELL);
    assert_eq!(g.direction, Direction::Left);
    assert_eq!(g.segments[0], pos(9, 7));
}

#[test]
fn movement_without_a_fire_only_updates_the_heading() {
    let mut g = GameState::new();
    g.prev_direction = Some(Direction::Up);
    g.snek_movement(Some(Direction::Left), false);
    assert_eq!(g.direction, Direction::Left);
    assert_eq!(g.segments, vec![pos(10, 6), pos(10, 5)]);
    assert_eq!(g.last_tail, None);
}

#[test]
fn eating_ignores_food_away_from_the_head() {
    let mut g = GameState::new();
    g.foods = vec![pos(1, 1)];
    g.snek_eating(true);
    assert_eq!(g.foods, vec![pos(1, 1)]);
    assert_eq!(g.growth_pending, 0);
}

#[test]
fn spawn_skips_cells_held_by_the_snake() {
    let mut g = GameState::new();
    g.spawn_timer.elapsed_ms = 999;
    g.step_with_cell(None, 1, pos(10, 5));
    assert!(g.foods.is_empty());
}

#[test]
fn spawn_places_one_food_on_a_free_cell() {
    let mut g = GameState::new();
    g.spawn_timer.elapsed_ms = 999;
    g.step_with_cell(None, 1, pos(4, 4));
    assert_eq!(g.foods, vec![pos(4, 4)]);
}

#[test]
fn spawn_is_skipped_without_a_spawn_timer_fire() {
    let mut g = GameState::new();
    g.step_with_cell(None, 200, pos(4, 4));
    assert!(g.foods.is_empty());
}

#[test]
fn spawn_stops_once_more_than_four_foods_are_active() {
    let mut g = GameState::new();
    g.foods = vec![pos(0, 0), pos(0, 1), pos(0, 2), pos(0, 3), pos(0, 4)];
    g.spawn_timer.elapsed_ms = 999;
    g.step_with_cell(None, 1, pos(4, 4));
    assert_eq!(g.foods.len(), 5);
}

#[test]
fn spawn_admits_a_fifth_food_at_the_cap() {
    // The spawn rule admits one food beyond the cap of four: with exactly
    // four active and a free cell drawn, a fifth appears.
    let mut g = GameState::new();
    g.foods = vec![pos(0, 0), pos(0, 1), pos(0, 2), pos(0, 3)];
    g.spawn_timer.elapsed_ms = 999;
    g.step_with_cell(None, 1, pos(4, 4));
    assert_eq!(g.foods.len(), 5);
    assert_eq!(g.foods[4], pos(4, 4));
}

#[test]
fn random_spawns_stay_in_bounds_and_off_the_snake() {
    // Drive the game through the random path: every spawned food lies in
    // the arena, never on a snake segment at spawn time, and the count
    // stays within five.
    let mut g = GameState::new();
    for _ in 0..40 {
        let foods_before = g.foods.len();
        g.step(None, 1000);
        if g.foods.len() > foods_before {
            let spawned = g.foods[g.foods.len() - 1];
            assert!((0..20).contains(&spawned.x) && (0..20).contains(&spawned.y));
            // The spawn attempt ran last, so the segments it checked are the
            // segments the step left behind.
            assert!(!g.segments.contains(&spawned));
        }
        assert!(g.foods.len() <= 5);
        assert!(g.segments.len() >= 2);
    }
}

#[test]
fn growth_appends_at_the_recorded_tail_cell() {
    let mut g = GameState::new();
    g.last_tail = Some(pos(7, 7));
    g.growth_pending = 1;
    g.step_with_cell(None, 0, IDLE_CELL);
    assert_eq!(g.segments, vec![pos(10, 6), pos(10, 5), pos(7, 7)]);
}

#[test]
fn game_over_reset_is_idempotent() {
    let mut g = state_with(vec![pos(0, 0), pos(0, 1)], Direction::Left);
    g.foods = vec![pos(3, 3)];
    g.step_with_cell(None, 200, IDLE_CELL);
    let once = (
        g.segments.clone(),
        g.direction,
        g.foods.clone(),
        g.last_tail,
        g.growth_pending,
    );
    g.game_over_pending = 1;
    g.game_over();
    let twice = (
        g.segments.clone(),
        g.direction,
        g.foods.clone(),
        g.last_tail,
        g.growth_pending,
    );
    assert_eq!(once, twice);
    assert_eq!(g.segments, vec![pos(10, 6), pos(10, 5)]);
}

#[test]
fn moving_into_the_vacating_tail_cell_still_ends_the_game() {
    // The collision check runs against the body as it stood before the
    // move, so the cell the tail is about to leave still counts.
    let mut g = state_with(
        vec![pos(5, 5), pos(5, 6), pos(6, 6), pos(6, 5), pos(5, 4)],
        Direction::Down,
    );
    // Head moves Down into (5,4), the pre-move tail cell.
    g.step_with_cell(None, 200, IDLE_CELL);
    assert_eq!(g.segments, vec![pos(10, 6), pos(10, 5)]);
}
