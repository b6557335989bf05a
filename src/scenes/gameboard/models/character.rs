//! The sides of a game.
use vstd::prelude::*;

verus! {

/// Whether a character is the player's or the opponent.
#[derive(Debug, Copy, Clone, PartialEq, Eq, Structural)]
pub enum CharacterKind {
    Character,
    Opponent,
}

} // verus!
