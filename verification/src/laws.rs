//! The general laws of the simulation, each proved from the transition spec
//! functions that the executable functions are verified against.

use vstd::prelude::*;

use crate::food::spec_spawn;
use crate::geometry::Direction;
use crate::geometry::Position;
use crate::motion::spec_movement;
use crate::motion::spec_new_direction;
use crate::state::FOOD_CAP;
use crate::state::GameModel;
use crate::state::spec_initial_segments;
use crate::tick::spec_after_reset;
use crate::tick::spec_step;
use crate::timer::MOVE_PERIOD_MS;
use crate::timer::spec_fires;

verus! {

/// On a tick where the movement timer does not fire, no segment position
/// changes: every segment keeps its cell, whatever was requested, however
/// much time elapsed and whatever spawn cell was drawn. A growth signal
/// still pending from an earlier tick appends one new segment even on such
/// a tick; with none pending, the segment sequences are equal outright.
pub proof fn lemma_no_fire_keeps_segments(
    m: GameModel,
    input: Option<Direction>,
    delta: nat,
    cell: Position,
)
    requires
        m.wf(),
        !spec_fires(m.move_elapsed, MOVE_PERIOD_MS as nat, delta),
    ensures
        forall|i: int|
            0 <= i < m.segments.len() ==> spec_step(m, input, delta, cell).segments[i]
                == m.segments[i],
        m.growth_pending == 0 ==> spec_step(m, input, delta, cell).segments == m.segments,
{
}

/// A direction change never turns the snake back on itself: after the
/// per-tick direction update, the heading differs from the opposite of the
/// heading held before the update, whether the candidate was accepted or
/// rejected.
pub proof fn lemma_no_reversal(
    input: Option<Direction>,
    current: Direction,
    prev: Option<Direction>,
)
    ensures
        spec_new_direction(input, current, prev) != current.spec_opposite(),
{
}

/// Strict follow-the-leader: on a movement-timer fire, every non-head
/// segment's new position equals the position its predecessor held
/// immediately before the move, and the head advances one cell along the
/// applied heading.
pub proof fn lemma_follow_the_leader(m: GameModel, input: Option<Direction>)
    requires
        m.segments.len() >= 1,
    ensures
        spec_movement(m, input, true).segments.len() == m.segments.len(),
        forall|i: int|
            1 <= i < m.segments.len() ==> spec_movement(m, input, true).segments[i]
                == m.segments[i - 1],
        spec_movement(m, input, true).segments[0] == crate::geometry::spec_moved_from(
            m.segments[0],
            spec_new_direction(input, m.direction, m.prev_direction),
        ),
{
}

/// The game-over reset is idempotent: resetting a freshly reset state
/// changes nothing, and either way the snake stands in its two-segment
/// initial configuration.
pub proof fn lemma_reset_idempotent(m: GameModel)
    ensures
        spec_after_reset(spec_after_reset(m)) == spec_after_reset(m),
        spec_after_reset(m).segments == spec_initial_segments(),
        spec_after_reset(m).segments.len() == 2,
{
    assert(spec_after_reset(spec_after_reset(m)) =~= spec_after_reset(m));
}

/// A spawn attempt never pushes the food count past `FOOD_CAP + 1`, however
/// many foods were active before.
pub proof fn lemma_spawn_bounded(m: GameModel, fired: bool, cell: Position)
    requires
        m.foods.len() <= FOOD_CAP + 1,
    ensures
        spec_spawn(m, fired, cell).foods.len() <= FOOD_CAP + 1,
{
}

/// The food count stays within the cap of `FOOD_CAP` across a spawn attempt.
/// The one family of inputs on which this fails is a state already holding
/// exactly `FOOD_CAP` foods whose attempt succeeds — the spawn rule admits
/// one food more than the cap — so the law asks for those inputs to be
/// absent.
pub proof fn lemma_spawn_respects_cap(m: GameModel, fired: bool, cell: Position)
    requires
        m.foods.len() <= FOOD_CAP,
        !(m.foods.len() == FOOD_CAP && fired && !m.segments.contains(cell)),
    ensures
        spec_spawn(m, fired, cell).foods.len() <= FOOD_CAP,
{
}

/// Food never spawns on the snake: whenever a spawn attempt creates a food,
/// the created food sits at the drawn cell and that cell coincides with no
/// current snake segment.
pub proof fn lemma_spawn_off_snake(m: GameModel, fired: bool, cell: Position)
    ensures
        spec_spawn(m, fired, cell).foods.len() > m.foods.len() ==> {
            &&& !m.segments.contains(cell)
            &&& spec_spawn(m, fired, cell).foods.last() == cell
        },
{
}

} // verus!
