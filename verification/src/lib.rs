//! Simulation core of a two-paddle ball game: per-tick paddle movement,
//! ball integration and spawning, collision response, and scoring.
//!
//! All coordinates, velocities and durations are fixed-point integers
//! (see [`fixed::SCALE`]), so every rule is stated and proved exactly.

pub mod fixed;
pub mod pong;
pub mod systems;
