//! Simulation core of a grid-based snake game.
//!
//! The library holds the deterministic rules of the game: four-way movement
//! on a fixed 20x20 grid, buffered direction changes with reversal
//! prevention, follow-the-leader segment shifting, wall and self collision
//! detection, food spawning at random free cells up to a cap, growth, and a
//! full reset on game over. Two repeating timers gate movement and food
//! spawning. Everything here is verified; rendering and input live outside.

use vstd::prelude::*;

pub mod food;
pub mod geometry;
pub mod laws;
pub mod motion;
pub mod state;
pub mod tick;
pub mod timer;

verus! {

} // verus!
