//! The simulation state: the snake's segments and heading, the buffered
//! previous direction, the vacated tail cell, the active food cells, the two
//! timers and the per-tick signal queues, together with the mathematical
//! model that all contracts speak of.

use vstd::prelude::*;

use crate::geometry::Direction;
use crate::geometry::Position;
use crate::geometry::spec_in_bounds;
use crate::timer::MOVE_PERIOD_MS;
use crate::timer::RepeatingTimer;
use crate::timer::SPAWN_PERIOD_MS;

verus! {

/// Food spawning is skipped whenever more than this many food cells are
/// already active, so at most `FOOD_CAP + 1` foods ever coexist.
pub const FOOD_CAP: usize = 4;

/// x coordinate of the head of a freshly spawned snake.
pub const START_HEAD_X: i32 = 10;

/// y coordinate of the head of a freshly spawned snake.
pub const START_HEAD_Y: i32 = 6;

/// The mathematical model of a [`GameState`]: sequences in place of vectors,
/// unbounded naturals in place of machine integers. Contracts and the
/// transition spec functions are stated over this type.
#[verifier::ext_equal]
pub struct GameModel {
    /// Segment cells, index 0 the head.
    pub segments: Seq<Position>,
    /// The head's current heading.
    pub direction: Direction,
    /// The cell the tail vacated on the most recent move, if any.
    pub last_tail: Option<Position>,
    /// The heading actually applied on the most recent move, if any.
    pub prev_direction: Option<Direction>,
    /// Cells holding active food.
    pub foods: Seq<Position>,
    /// Growth signals emitted but not yet consumed.
    pub growth_pending: nat,
    /// Game-over signals emitted but not yet consumed.
    pub game_over_pending: nat,
    /// Accumulation of the movement timer.
    pub move_elapsed: nat,
    /// Accumulation of the food-spawn timer.
    pub spawn_elapsed: nat,
}

/// The two segments a fresh snake is made of: the head at (10, 6) and one
/// trailing segment directly below it.
pub open spec fn spec_initial_segments() -> Seq<Position> {
    seq![
        Position { x: START_HEAD_X, y: START_HEAD_Y },
        Position { x: START_HEAD_X, y: (START_HEAD_Y - 1) as i32 },
    ]
}

/// The model of a freshly started game: the initial snake heading up, no
/// food, nothing buffered, both timers at zero.
pub open spec fn spec_initial_model() -> GameModel {
    GameModel {
        segments: spec_initial_segments(),
        direction: Direction::Up,
        last_tail: None,
        prev_direction: None,
        foods: Seq::empty(),
        growth_pending: 0,
        game_over_pending: 0,
        move_elapsed: 0,
        spawn_elapsed: 0,
    }
}

impl GameModel {
    /// Well-formedness of a model between ticks: the snake keeps at least
    /// its two initial segments and sits inside the arena, food respects the
    /// spawn cap, a buffered tail cell is in bounds, a pending growth signal
    /// always has a tail cell to grow from, game-over signals never outlive
    /// the tick that emitted them, and both timer accumulators are below
    /// their periods.
    pub open spec fn wf(self) -> bool {
        &&& self.segments.len() >= 2
        &&& forall|i: int| 0 <= i < self.segments.len() ==> spec_in_bounds(#[trigger] self.segments[i])
        &&& self.foods.len() <= FOOD_CAP + 1
        &&& self.last_tail matches Some(t) ==> spec_in_bounds(t)
        &&& self.growth_pending <= FOOD_CAP + 1
        &&& self.growth_pending > 0 ==> self.last_tail is Some
        &&& self.game_over_pending == 0
        &&& self.move_elapsed < MOVE_PERIOD_MS
        &&& self.spawn_elapsed < SPAWN_PERIOD_MS
    }
}

/// The whole simulation state. Every field is plain data; the engine around
/// the simulation feeds it an optional requested direction and an elapsed
/// duration each tick and renders whatever the state then holds.
pub struct GameState {
    /// Segment cells, index 0 the head.
    pub segments: Vec<Position>,
    /// The head's current heading.
    pub direction: Direction,
    /// The cell the tail vacated on the most recent move, if any.
    pub last_tail: Option<Position>,
    /// The heading actually applied on the most recent move, if any.
    pub prev_direction: Option<Direction>,
    /// Cells holding active food.
    pub foods: Vec<Position>,
    /// Growth signals emitted but not yet consumed.
    pub growth_pending: usize,
    /// Game-over signals emitted but not yet consumed.
    pub game_over_pending: usize,
    /// Gates movement, collision and eating; fires every 200 ms.
    pub move_timer: RepeatingTimer,
    /// Gates food spawning; fires every 1000 ms.
    pub spawn_timer: RepeatingTimer,
}

impl View for GameState {
    type V = GameModel;

    open spec fn view(&self) -> GameModel {
        GameModel {
            segments: self.segments@,
            direction: self.direction,
            last_tail: self.last_tail,
            prev_direction: self.prev_direction,
            foods: self.foods@,
            growth_pending: self.growth_pending as nat,
            game_over_pending: self.game_over_pending as nat,
            move_elapsed: self.move_timer.elapsed_ms as nat,
            spawn_elapsed: self.spawn_timer.elapsed_ms as nat,
        }
    }
}

impl GameState {
    /// A state is well formed when its model is and its two timers carry
    /// their fixed periods.
    pub open spec fn wf(self) -> bool {
        &&& self@.wf()
        &&& self.move_timer.period_ms == MOVE_PERIOD_MS
        &&& self.spawn_timer.period_ms == SPAWN_PERIOD_MS
    }

    /// A freshly started game.
    pub fn new() -> (r: GameState)
        ensures
            r@ == spec_initial_model(),
            r.wf(),
    {
        let mut segments: Vec<Position> = Vec::new();
        segments.push(Position { x: START_HEAD_X, y: START_HEAD_Y });
        segments.push(Position { x: START_HEAD_X, y: START_HEAD_Y - 1 });
        let r = GameState {
            segments,
            direction: Direction::Up,
            last_tail: None,
            prev_direction: None,
            foods: Vec::new(),
            growth_pending: 0,
            game_over_pending: 0,
            move_timer: RepeatingTimer::new(MOVE_PERIOD_MS),
            spawn_timer: RepeatingTimer::new(SPAWN_PERIOD_MS),
        };
        proof {
            assert(r@.segments =~= spec_initial_segments());
            assert(r@.foods =~= Seq::<Position>::empty());
            assert(r@ =~= spec_initial_model());
        }
        r
    }
}

} // verus!
