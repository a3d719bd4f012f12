//! Rules engine for Martian Chess on an 8x4 board: piece movement, capture,
//! promotion, zone of control, the undo prohibition and the move clock.

use vstd::prelude::*;

pub mod board;
pub mod game;
pub mod notation;
pub mod pieces;
pub mod theorems;

verus! {

/// Options of a game. There are none yet.
pub struct Config {}

impl Config {
    /// Reads the options from the program's arguments, all of which are ignored.
    pub fn build(args: impl Iterator<Item = String>) -> (r: Result<Config, &'static str>)
        ensures
            r is Ok,
    {
        Ok(Config {  })
    }
}

} // verus!
