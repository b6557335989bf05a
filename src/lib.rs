//! Input binding, input state and scene stack for a turn-based sudoku game,
//! together with the board model that the game's scene drives.
pub mod assoc;
pub mod input;
pub mod scenes;
pub mod resources;
