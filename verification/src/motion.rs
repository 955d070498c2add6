//! Snake movement: per-tick direction gating, and on each movement-timer
//! fire the follow-the-leader advance, the wall and self collision checks
//! and the bookkeeping of the vacated tail cell and the applied heading.

use vstd::prelude::*;

use crate::geometry::Direction;
use crate::geometry::Position;
use crate::geometry::in_bounds;
use crate::geometry::moved_from;
use crate::geometry::spec_in_bounds;
use crate::geometry::spec_moved_from;
use crate::state::GameModel;
use crate::state::GameState;

verus! {

/// The heading the snake would like to take this tick: the requested one if
/// any was requested, the current one otherwise.
pub open spec fn spec_candidate(input: Option<Direction>, current: Direction) -> Direction {
    match input {
        Some(d) => d,
        None => current,
    }
}

/// Whether a candidate heading is accepted. A reversal of the current
/// heading is always rejected; beyond that, a change is applied only once a
/// move has already happened (so a previously applied heading exists) and
/// the candidate differs from that applied heading.
pub open spec fn spec_accepts(cand: Direction, current: Direction, prev: Option<Direction>) -> bool {
    &&& cand != current.spec_opposite()
    &&& prev matches Some(p) && p != cand
}

/// The heading after the per-tick direction update.
pub open spec fn spec_new_direction(
    input: Option<Direction>,
    current: Direction,
    prev: Option<Direction>,
) -> Direction {
    let cand = spec_candidate(input, current);
    if spec_accepts(cand, current, prev) {
        cand
    } else {
        current
    }
}

/// The model after one run of the movement system. The heading updates every
/// tick. Only on a movement-timer fire do positions change: the head moves
/// one cell along the updated heading, every other segment takes the cell
/// its predecessor held before the move, the vacated tail cell and the
/// applied heading are recorded, and one game-over signal is emitted for a
/// head out of bounds plus one for a head on a cell the body held before the
/// move.
pub open spec fn spec_movement(m: GameModel, input: Option<Direction>, fired: bool) -> GameModel {
    let d = spec_new_direction(input, m.direction, m.prev_direction);
    if !fired {
        GameModel { direction: d, ..m }
    } else {
        let head = spec_moved_from(m.segments[0], d);
        let wall: nat = if !spec_in_bounds(head) {
            1
        } else {
            0
        };
        let self_hit: nat = if m.segments.contains(head) {
            1
        } else {
            0
        };
        GameModel {
            direction: d,
            segments: seq![head] + m.segments.drop_last(),
            last_tail: Some(m.segments.last()),
            prev_direction: Some(d),
            game_over_pending: m.game_over_pending + wall + self_hit,
            ..m
        }
    }
}

/// Whether some cell of `cells` equals `p`.
pub fn contains_position(cells: &Vec<Position>, p: Position) -> (r: bool)
    ensures
        r == cells@.contains(p),
{
    let n = cells.len();
    let mut i: usize = 0;
    while i < n
        invariant
            n == cells@.len(),
            0 <= i <= n,
            forall|j: int| 0 <= j < i ==> cells@[j] != p,
        decreases n - i,
    {
        if cells[i] == p {
            assert(cells@.contains(p));
            return true;
        }
        i += 1;
    }
    assert(!cells@.contains(p));
    false
}

impl GameState {
    /// One run of the movement system: update the heading from the requested
    /// direction, and on a movement-timer fire advance the snake, check the
    /// wall and the pre-move body for a collision, and record the vacated
    /// tail cell and the applied heading. Everything else is untouched.
    pub fn snek_movement(&mut self, input: Option<Direction>, move_fired: bool)
        requires
            old(self)@.segments.len() >= 1,
            forall|i: int|
                0 <= i < old(self)@.segments.len() ==> spec_in_bounds(
                    #[trigger] old(self)@.segments[i],
                ),
            old(self).game_over_pending <= usize::MAX - 2,
        ensures
            final(self)@ == spec_movement(old(self)@, input, move_fired),
            final(self).move_timer == old(self).move_timer,
            final(self).spawn_timer == old(self).spawn_timer,
            final(self)@.segments.len() == old(self)@.segments.len(),
    {
        let ghost m = self@;
        let current = self.direction;
        let cand = match input {
            Some(d) => d,
            None => current,
        };
        let prev_differs = match self.prev_direction {
            Some(p) => p != cand,
            None => false,
        };
        if cand != current.opposite() && prev_differs {
            self.direction = cand;
        }
        if !move_fired {
            proof {
                assert(self@ =~= spec_movement(m, input, move_fired));
            }
            return;
        }

        let new_head = moved_from(self.segments[0], self.direction);
        let n = self.segments.len();
        let mut shifted: Vec<Position> = Vec::new();
        shifted.push(new_head);
        let mut i: usize = 0;
        while i + 1 < n
            invariant
                n == self.segments@.len(),
                0 <= i <= n - 1,
                shifted@.len() == i + 1,
                shifted@[0] == new_head,
                forall|j: int| 1 <= j <= i ==> shifted@[j] == self.segments@[j - 1],
            decreases n - i,
        {
            let seg = self.segments[i];
            shifted.push(seg);
            i += 1;
        }
        proof {
            assert(shifted@ =~= seq![new_head] + m.segments.drop_last());
        }

        if !in_bounds(new_head) {
            self.game_over_pending += 1;
        }
        if contains_position(&self.segments, new_head) {
            self.game_over_pending += 1;
        }
        self.last_tail = Some(self.segments[n - 1]);
        self.prev_direction = Some(self.direction);
        self.segments = shifted;
        proof {
            assert(self@ =~= spec_movement(m, input, move_fired));
        }
    }
}

} // verus!
