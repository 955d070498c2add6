//! Grid geometry and the four-way direction model: positions on the arena,
//! the bounds test, the opposite-direction lookup and the unit move.

use vstd::prelude::*;

verus! {

/// Width of the arena in cells; valid x coordinates are 0 .. ARENA_WIDTH.
pub const ARENA_WIDTH: i32 = 20;

/// Height of the arena in cells; valid y coordinates are 0 .. ARENA_HEIGHT.
pub const ARENA_HEIGHT: i32 = 20;

/// A cell of the grid. No bounds are enforced intrinsically: a head that has
/// just left the arena is briefly held as an out-of-bounds position until the
/// collision check reacts.
#[derive(Debug, Clone, Copy, PartialEq, Eq, Hash, Structural)]
pub struct Position {
    pub x: i32,
    pub y: i32,
}

impl Default for Position {
    fn default() -> (r: Self)
        ensures
            r == (Position { x: 0, y: 0 }),
    {
        Position { x: 0, y: 0 }
    }
}

/// One of the four headings a snake can take.
#[derive(Debug, Clone, Copy, PartialEq, Eq, Structural)]
pub enum Direction {
    Left,
    Right,
    Up,
    Down,
}

impl Direction {
    /// The heading that points the opposite way.
    pub open spec fn spec_opposite(self) -> Direction {
        match self {
            Direction::Left => Direction::Right,
            Direction::Right => Direction::Left,
            Direction::Up => Direction::Down,
            Direction::Down => Direction::Up,
        }
    }

    /// The heading that points the opposite way: Left and Right pair up, so
    /// do Up and Down.
    #[verifier::when_used_as_spec(spec_opposite)]
    pub fn opposite(self) -> (r: Direction)
        ensures
            r == self.spec_opposite(),
    {
        match self {
            Direction::Left => Direction::Right,
            Direction::Right => Direction::Left,
            Direction::Up => Direction::Down,
            Direction::Down => Direction::Up,
        }
    }
}

/// The opposite lookup is an involution: applying it twice returns the
/// original heading, so the four directions pair up two and two.
pub proof fn lemma_opposite_involutive(d: Direction)
    ensures
        d.spec_opposite().spec_opposite() == d,
        d.spec_opposite() != d,
{
}

/// Whether a cell lies inside the arena.
pub open spec fn spec_in_bounds(p: Position) -> bool {
    0 <= p.x < ARENA_WIDTH && 0 <= p.y < ARENA_HEIGHT
}

/// Whether a cell lies inside the arena: x and y each within 0 .. 20.
#[verifier::when_used_as_spec(spec_in_bounds)]
pub fn in_bounds(p: Position) -> (r: bool)
    ensures
        r == spec_in_bounds(p),
{
    0 <= p.x && p.x < ARENA_WIDTH && 0 <= p.y && p.y < ARENA_HEIGHT
}

/// The cell one unit away from `p` in direction `d`. Stated with `as i32`
/// truncation so that it is total; callers stay far from the i32 limits.
pub open spec fn spec_moved_from(p: Position, d: Direction) -> Position {
    match d {
        Direction::Left => Position { x: (p.x - 1) as i32, y: p.y },
        Direction::Right => Position { x: (p.x + 1) as i32, y: p.y },
        Direction::Up => Position { x: p.x, y: (p.y + 1) as i32 },
        Direction::Down => Position { x: p.x, y: (p.y - 1) as i32 },
    }
}

/// Move a cell one unit in direction `d`. The head is always in bounds when
/// it moves, so the neighbour coordinates stay within -1 ..= 20.
pub fn moved_from(p: Position, d: Direction) -> (r: Position)
    requires
        spec_in_bounds(p),
    ensures
        r == spec_moved_from(p, d),
        -1 <= r.x <= ARENA_WIDTH,
        -1 <= r.y <= ARENA_HEIGHT,
{
    match d {
        Direction::Left => Position { x: p.x - 1, y: p.y },
        Direction::Right => Position { x: p.x + 1, y: p.y },
        Direction::Up => Position { x: p.x, y: p.y + 1 },
        Direction::Down => Position { x: p.x, y: p.y - 1 },
    }
}

} // verus!
