//! The four per-tick systems, run in this order: paddle movement, ball
//! integration and spawning, collision response, scoring.

pub mod paddle;
pub mod move_balls;
pub mod bounce;
pub mod winner;
