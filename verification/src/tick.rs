//! One simulation tick: both timers accumulate the elapsed time, the snake
//! moves and collisions are checked on a movement-timer fire, a game-over
//! signal resets the game, a pending growth signal appends a segment at the
//! vacated tail cell, eating consumes food under the head, and a spawn-timer
//! fire attempts to place one new food at a drawn cell.
//!
//! Signal ordering within a tick: the game-over reaction runs right after
//! the movement that may emit it, so a game-over signal is consumed in the
//! tick of its emission. The growth reaction runs before the eating check,
//! so a growth signal is consumed on the tick after its emission.

use vstd::prelude::*;

use crate::food::lemma_surviving_bounds;
use crate::food::random_cell;
use crate::food::spec_eating;
use crate::food::spec_spawn;
use crate::geometry::Direction;
use crate::geometry::Position;
use crate::geometry::spec_in_bounds;
use crate::motion::spec_movement;
use crate::state::GameModel;
use crate::state::GameState;
use crate::state::START_HEAD_X;
use crate::state::START_HEAD_Y;
use crate::state::spec_initial_segments;
use crate::timer::MOVE_PERIOD_MS;
use crate::timer::SPAWN_PERIOD_MS;
use crate::timer::spec_elapsed_after;
use crate::timer::spec_fires;

verus! {

/// The model right after a game-over reset: the initial two-segment snake
/// heading up, no food, no buffered tail cell, no pending signals. The
/// previously applied heading and both timers are untouched.
pub open spec fn spec_after_reset(m: GameModel) -> GameModel {
    GameModel {
        segments: spec_initial_segments(),
        direction: Direction::Up,
        foods: Seq::empty(),
        last_tail: None,
        growth_pending: 0,
        game_over_pending: 0,
        ..m
    }
}

/// The model after the game-over reaction: any pending game-over signal,
/// however many were emitted, is consumed by one full reset; with none
/// pending nothing happens.
pub open spec fn spec_game_over_reaction(m: GameModel) -> GameModel {
    if m.game_over_pending > 0 {
        spec_after_reset(m)
    } else {
        m
    }
}

/// The model after the growth reaction: pending growth signals, however many
/// were emitted, are consumed by appending one segment at the buffered
/// vacated tail cell; with none pending nothing happens.
pub open spec fn spec_growth_reaction(m: GameModel) -> GameModel {
    match m.last_tail {
        Some(t) => if m.growth_pending > 0 {
            GameModel { segments: m.segments.push(t), growth_pending: 0, ..m }
        } else {
            m
        },
        None => m,
    }
}

/// The model after one full simulation tick with elapsed time `delta`,
/// requested direction `input` and drawn spawn cell `cell`: both timers
/// accumulate, then movement, the game-over reaction, the growth reaction,
/// the eating check and the spawn attempt run in that order.
pub open spec fn spec_step(
    m: GameModel,
    input: Option<Direction>,
    delta: nat,
    cell: Position,
) -> GameModel {
    let move_fired = spec_fires(m.move_elapsed, MOVE_PERIOD_MS as nat, delta);
    let spawn_fired = spec_fires(m.spawn_elapsed, SPAWN_PERIOD_MS as nat, delta);
    let ticked = GameModel {
        move_elapsed: spec_elapsed_after(m.move_elapsed, MOVE_PERIOD_MS as nat, delta),
        spawn_elapsed: spec_elapsed_after(m.spawn_elapsed, SPAWN_PERIOD_MS as nat, delta),
        ..m
    };
    let moved = spec_movement(ticked, input, move_fired);
    let settled = spec_game_over_reaction(moved);
    let grown = spec_growth_reaction(settled);
    let eaten = spec_eating(grown, move_fired);
    spec_spawn(eaten, spawn_fired, cell)
}

impl GameState {
    /// Rebuild the snake at its fixed start: the head at (10, 6) heading up
    /// with one trailing segment at (10, 5). Everything else is untouched.
    pub fn spawn_snek(&mut self)
        ensures
            final(self)@ == (GameModel {
                segments: spec_initial_segments(),
                direction: Direction::Up,
                ..old(self)@
            }),
            final(self).move_timer == old(self).move_timer,
            final(self).spawn_timer == old(self).spawn_timer,
    {
        let ghost m = self@;
        let mut segments: Vec<Position> = Vec::new();
        segments.push(Position { x: START_HEAD_X, y: START_HEAD_Y });
        segments.push(Position { x: START_HEAD_X, y: START_HEAD_Y - 1 });
        self.segments = segments;
        self.direction = Direction::Up;
        proof {
            assert(self@.segments =~= spec_initial_segments());
            assert(self@ =~= (GameModel {
                segments: spec_initial_segments(),
                direction: Direction::Up,
                ..m
            }));
        }
    }

    /// One run of the game-over reaction: when at least one game-over signal
    /// is pending, destroy every food and every segment, rebuild the snake
    /// at its start, drop the buffered tail cell and clear the pending
    /// signals; the previously applied heading and the timers keep running.
    pub fn game_over(&mut self)
        ensures
            final(self)@ == spec_game_over_reaction(old(self)@),
            final(self).move_timer == old(self).move_timer,
            final(self).spawn_timer == old(self).spawn_timer,
    {
        let ghost m = self@;
        if self.game_over_pending > 0 {
            self.foods = Vec::new();
            self.spawn_snek();
            self.last_tail = None;
            self.growth_pending = 0;
            self.game_over_pending = 0;
            proof {
                assert(self@ =~= spec_after_reset(m));
            }
        }
        proof {
            assert(self@ =~= spec_game_over_reaction(m));
        }
    }

    /// One run of the growth reaction: when at least one growth signal is
    /// pending, append one segment at the buffered vacated tail cell and
    /// consume the pending signals. Everything else is untouched.
    pub fn snek_growth(&mut self)
        requires
            old(self).growth_pending > 0 ==> old(self).last_tail is Some,
        ensures
            final(self)@ == spec_growth_reaction(old(self)@),
            final(self).move_timer == old(self).move_timer,
            final(self).spawn_timer == old(self).spawn_timer,
    {
        let ghost m = self@;
        if self.growth_pending > 0 {
            match self.last_tail {
                Some(t) => {
                    self.segments.push(t);
                    self.growth_pending = 0;
                },
                None => {},
            }
        }
        proof {
            assert(self@ =~= spec_growth_reaction(m));
        }
    }

    /// One full simulation tick with the spawn cell already drawn: both
    /// timers accumulate `delta_ms`, then movement, the game-over reaction,
    /// the growth reaction, the eating check and the spawn attempt run in
    /// order. Well-formedness is preserved.
    pub fn step_with_cell(&mut self, input: Option<Direction>, delta_ms: u64, cell: Position)
        requires
            old(self).wf(),
            delta_ms <= u64::MAX - SPAWN_PERIOD_MS,
        ensures
            final(self).wf(),
            final(self)@ == spec_step(old(self)@, input, delta_ms as nat, cell),
    {
        let ghost m = self@;
        let move_fired = self.move_timer.tick(delta_ms);
        let spawn_fired = self.spawn_timer.tick(delta_ms);
        let ghost ticked = self@;
        self.snek_movement(input, move_fired);
        let ghost moved = self@;
        self.game_over();
        let ghost settled = self@;
        self.snek_growth();
        let ghost grown = self@;
        proof {
            assert(grown.segments.len() >= 1);
            lemma_surviving_bounds(grown.foods, grown.segments[0], grown.foods.len() as int);
        }
        self.snek_eating(move_fired);
        let ghost eaten = self@;
        self.try_spawn_food(spawn_fired, cell);
        proof {
            assert(ticked =~= (GameModel {
                move_elapsed: spec_elapsed_after(m.move_elapsed, MOVE_PERIOD_MS as nat, delta_ms as nat),
                spawn_elapsed: spec_elapsed_after(m.spawn_elapsed, SPAWN_PERIOD_MS as nat, delta_ms as nat),
                ..m
            }));
            assert(self@ == spec_step(m, input, delta_ms as nat, cell));
        }
    }

    /// One full simulation tick: like [`GameState::step_with_cell`], with
    /// the spawn cell drawn from the thread-local random number generator.
    /// The drawn cell always lies inside the arena; nothing more is known of
    /// it, so the outcome is pinned down up to the choice of that cell.
    pub fn step(&mut self, input: Option<Direction>, delta_ms: u64)
        requires
            old(self).wf(),
            delta_ms <= u64::MAX - SPAWN_PERIOD_MS,
        ensures
            final(self).wf(),
            exists|cell: Position|
                spec_in_bounds(cell) && final(self)@ == spec_step(
                    old(self)@,
                    input,
                    delta_ms as nat,
                    cell,
                ),
    {
        let ghost m = self@;
        let cell = random_cell();
        self.step_with_cell(input, delta_ms, cell);
        proof {
            assert(spec_in_bounds(cell) && self@ == spec_step(m, input, delta_ms as nat, cell));
        }
    }
}

} // verus!
