//! Core of a terminal snake game on a toroidal grid: the world state, the
//! per-tick update step (movement, growth, collectible consumption and
//! respawn), a pure frame renderer, and the input-to-state transition of the
//! game loop.

pub mod game;
pub mod geometry;
pub mod model;
pub mod render;
pub mod update;
