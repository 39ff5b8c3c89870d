//! Fixed-point kinematics and collision for a steerable entity and a stationary target.
//!
//! Units: positions are in micro-pixels, velocities in milli-pixels per second,
//! accelerations in pixels per second squared and tick lengths in milliseconds.
//! With these units every integration step is an exact integer product.
pub mod arith;
pub mod enemy;
pub mod player;
pub mod game;
