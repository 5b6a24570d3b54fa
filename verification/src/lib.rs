//! A terminal snake game, verified: the game state machine (movement,
//! growth, collision, score), the food-placement arithmetic, and the
//! byte-exact construction of every escape sequence and screen the game
//! writes. Terminal I/O itself lives outside the library and is handed
//! ready-made byte buffers and plain key bytes.

use vstd::prelude::*;

pub mod digits;
pub mod engine;
pub mod game;
pub mod laws;
pub mod render;

verus! {

/// Width of the playable interior, in cells.
pub const GAME_WIDTH: usize = 40;

/// Height of the playable interior, in cells.
pub const GAME_HEIGHT: usize = 20;

} // verus!
