//! Simulation core of a grid-based snake game: the snake's body and heading,
//! the board, food placement, collision rules and restart timing.

pub mod draw;
pub mod game;
pub mod snake;
