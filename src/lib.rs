//! Simulation core of a small top-down shooter: game phases, the player's
//! movement, the camera that follows it, the cursor marker and projectile
//! spawning, on a fixed-point world model.
pub mod geometry;
pub mod input;
pub mod movement;
pub mod phase;
pub mod systems;
pub mod world;
