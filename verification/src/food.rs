//! The food manager: eating every food the head sits on (gated by the
//! movement timer, one growth signal per food eaten), and spawning one food
//! at a drawn cell (gated by the spawn timer) when the cell is free of snake
//! segments and the active food count is within the cap.

use vstd::prelude::*;

use crate::geometry::ARENA_HEIGHT;
use crate::geometry::ARENA_WIDTH;
use crate::geometry::Position;
use crate::geometry::spec_in_bounds;
use crate::motion::contains_position;
use crate::state::FOOD_CAP;
use crate::state::GameModel;
use crate::state::GameState;

verus! {

/// The foods among the first `n` of `foods` that do not lie on `head`, in
/// their original order.
pub open spec fn spec_surviving(foods: Seq<Position>, head: Position, n: int) -> Seq<Position>
    decreases n,
{
    if n <= 0 {
        Seq::empty()
    } else {
        let rest = spec_surviving(foods, head, n - 1);
        if foods[n - 1] == head {
            rest
        } else {
            rest.push(foods[n - 1])
        }
    }
}

/// The foods that survive an eating check against `head`: every food on the
/// head's cell is consumed, the rest keep their order.
pub open spec fn spec_remaining_foods(foods: Seq<Position>, head: Position) -> Seq<Position> {
    spec_surviving(foods, head, foods.len() as int)
}

/// At most the first `n` foods can survive the eating check on them, and
/// every survivor lies off the head's cell.
pub proof fn lemma_surviving_bounds(foods: Seq<Position>, head: Position, n: int)
    requires
        0 <= n <= foods.len(),
    ensures
        spec_surviving(foods, head, n).len() <= n,
        forall|j: int|
            0 <= j < spec_surviving(foods, head, n).len() ==> #[trigger] spec_surviving(
                foods,
                head,
                n,
            )[j] != head,
    decreases n,
{
    if n > 0 {
        lemma_surviving_bounds(foods, head, n - 1);
    }
}

/// The model after one run of the eating system. Nothing happens without a
/// movement-timer fire. On a fire, every food on the head's cell disappears
/// and one growth signal per food eaten is emitted.
pub open spec fn spec_eating(m: GameModel, fired: bool) -> GameModel {
    if !fired {
        m
    } else {
        let remaining = spec_remaining_foods(m.foods, m.segments[0]);
        GameModel {
            foods: remaining,
            growth_pending: (m.growth_pending + m.foods.len() - remaining.len()) as nat,
            ..m
        }
    }
}

/// The model after one spawn attempt with the drawn cell `cell`. Nothing
/// happens without a spawn-timer fire; on a fire, one food appears at `cell`
/// unless the cell holds a snake segment or more than `FOOD_CAP` foods are
/// already active.
pub open spec fn spec_spawn(m: GameModel, fired: bool, cell: Position) -> GameModel {
    if fired && !m.segments.contains(cell) && m.foods.len() <= FOOD_CAP {
        GameModel { foods: m.foods.push(cell), ..m }
    } else {
        m
    }
}

/// Relies on rand::random: one value drawn from the thread-local generator.
/// Nothing is promised of the value.
#[verifier::external_body]
fn random_u32() -> u32 {
    rand::random::<u32>()
}

/// A drawn cell somewhere inside the arena, each coordinate from the
/// thread-local random number generator.
pub fn random_cell() -> (p: Position)
    ensures
        spec_in_bounds(p),
{
    let x = random_u32() % (ARENA_WIDTH as u32);
    let y = random_u32() % (ARENA_HEIGHT as u32);
    Position { x: x as i32, y: y as i32 }
}

impl GameState {
    /// One run of the eating system: on a movement-timer fire, consume every
    /// food whose cell equals the head's and emit one growth signal apiece.
    /// Everything else is untouched.
    pub fn snek_eating(&mut self, move_fired: bool)
        requires
            old(self)@.segments.len() >= 1,
            old(self).growth_pending <= usize::MAX - old(self).foods@.len(),
        ensures
            final(self)@ == spec_eating(old(self)@, move_fired),
            final(self).move_timer == old(self).move_timer,
            final(self).spawn_timer == old(self).spawn_timer,
            final(self)@.segments == old(self)@.segments,
    {
        let ghost m = self@;
        if !move_fired {
            proof {
                assert(self@ =~= spec_eating(m, move_fired));
            }
            return;
        }
        let head = self.segments[0];
        let n = self.foods.len();
        let mut remaining: Vec<Position> = Vec::new();
        let mut eaten: usize = 0;
        let mut i: usize = 0;
        while i < n
            invariant
                n == self.foods@.len(),
                0 <= i <= n,
                head == m.segments[0],
                self.foods@ == m.foods,
                remaining@ == spec_surviving(m.foods, head, i as int),
                eaten + remaining@.len() == i,
            decreases n - i,
        {
            let food = self.foods[i];
            if food == head {
                eaten += 1;
            } else {
                remaining.push(food);
            }
            i += 1;
        }
        self.foods = remaining;
        self.growth_pending += eaten;
        proof {
            assert(self@ =~= spec_eating(m, move_fired));
        }
    }

    /// One spawn attempt with the already drawn cell `cell`: on a spawn-timer
    /// fire, create one food at `cell` unless a snake segment occupies it or
    /// more than `FOOD_CAP` foods are already active. Everything else is
    /// untouched.
    pub fn try_spawn_food(&mut self, spawn_fired: bool, cell: Position)
        requires
            old(self).foods@.len() <= usize::MAX - 1,
        ensures
            final(self)@ == spec_spawn(old(self)@, spawn_fired, cell),
            final(self).move_timer == old(self).move_timer,
            final(self).spawn_timer == old(self).spawn_timer,
    {
        let ghost m = self@;
        if spawn_fired && !contains_position(&self.segments, cell) && self.foods.len() <= FOOD_CAP {
            self.foods.push(cell);
        }
        proof {
            assert(self@ =~= spec_spawn(m, spawn_fired, cell));
        }
    }
}

} // verus!
