//! Core simulation of a hexagonal lane-dodging arcade game.
//!
//! A player token orbits the inside of a hexagonal arena at a fixed radius,
//! steering between six 60-degree lanes while obstacle walls spawn at the rim
//! in waves and travel inward at a constant per-tick speed. Contact between
//! the player and a wall in its own lane pauses the game; a reset action
//! restores the initial state. Angles are kept in whole degrees and radial
//! distances in whole units, so every rule of the simulation is exact integer
//! arithmetic.

pub mod collision;
pub mod geometry;
pub mod player;
pub mod score;
pub mod sim;
pub mod spawner;
pub mod timer;
pub mod wall;
