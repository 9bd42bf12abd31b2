//! Deterministic, fixed-timestep simulation core of a platform fighter.
//!
//! A per-actor finite-state machine with frame-accurate interrupt windows,
//! a swept physics and collider resolver, capsule and circle nearest-pass
//! geometry for hit detection, and a gesture-recognizing input buffer.
//! All continuous quantities (stick positions, world coordinates, speeds)
//! are fixed-point integers in thousandths of a unit, so every computation
//! is exact and fully specified.

pub mod fighter;
pub mod fighter_state;
pub mod hitbox;
pub mod input;
pub mod math;
pub mod megaman;
pub mod physics;
pub mod pipeline;
pub mod projectile;
pub mod utils;
pub mod view;
