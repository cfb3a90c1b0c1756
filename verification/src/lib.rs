//! A verified core for Conway's Game of Life: a square cell grid with the
//! generation rule, a catalog of classic patterns with a selection editor,
//! and the game's top-level state machine. Rendering and input polling live
//! outside the library and hand it plain values.
use vstd::prelude::*;

pub mod game;
pub mod game_editor;
pub mod game_grid;

verus! {

/// Side length of the grid the game plays on.
pub const GRID_SIZE: usize = 200;

} // verus!
