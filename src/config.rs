use vstd::prelude::*;

verus! {

/// Width of the playing field, in cells.
pub const MAP_WIDTH: i32 = 25;

/// Height of the playing field, in cells.
pub const MAP_HEIGHT: i32 = 25;

/// Number of cells on the playing field; a snake this long has won.
pub const MAP_CELLS: usize = 625;

/// Column of the centre cell.
pub const MAP_CENTRE_X: i32 = 12;

/// Row of the centre cell.
pub const MAP_CENTRE_Y: i32 = 12;

/// Number of segments of a fresh snake.
pub const STARTING_LENGTH: usize = 5;

/// How many cells the snake advances per second.
pub const SLITHERS_PER_SECOND: u64 = 15;

/// Milliseconds in a second; the clock handed to the game counts milliseconds.
pub const MILLIS_PER_SECOND: u64 = 1000;

} // verus!
