//! The game board scene and the models it drives.
pub mod models;
pub mod scene;
