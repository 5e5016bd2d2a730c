//! Simulation core of a top-down arcade shooter: projectile movement and
//! culling, rate-limited spawn controllers, axis-aligned collision detection
//! with at-most-one-hit-per-target resolution, and the explosion lifecycle.
//!
//! All quantities are integers in caller-chosen length and time units, so
//! every rule of the simulation is stated and proved exactly.

pub mod collision;
pub mod enemy;
pub mod explosion;
pub mod player;
pub mod sim;
pub mod texture;
pub mod world;
