//! What the game board scene shows and changes.
pub mod ability;
pub mod character;
pub mod gameboard;
