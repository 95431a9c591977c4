//! Discrete-time snake engine: the segment chain, follow-the-leader movement,
//! growth, collision detection and the tile classifier that tags each body
//! segment for rendering.

pub mod grid;
pub mod chain;
pub mod snake;
pub mod collision;
pub mod tiles;
pub mod scheduler;
pub mod game;
pub mod laws;
