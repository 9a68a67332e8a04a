//! Core of a two-player word-duel game.
//!
//! Each round both players answer a pair of prompts; the answers are compared
//! letter by letter on a tug-of-war board that gradually captures consonants
//! for one side or the other.  The crate holds the game state machine and the
//! scoring engine: the `Board`, `Round`, `Game` lifecycle and the `Games`
//! registry.  Prompt supply, locking and all I/O live outside the crate.

pub mod board;
pub mod errors;
pub mod game;
pub mod registry;
pub mod round;

use vstd::prelude::*;

verus! {

/// Liveness probe; always reports the same word.
pub fn heartbeat() -> (r: &'static str)
    ensures
        r@ == "heartbeat"@,
{
    "heartbeat"
}

} // verus!
