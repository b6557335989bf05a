//! Scenes: the stack that drives them and the game board scene.
pub mod gameboard;
pub mod stack;
