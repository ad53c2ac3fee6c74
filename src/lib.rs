//! Simulation core of a 2D arcade shooter.
//!
//! Every quantity is an integer in a fixed unit:
//! positions in micro-pixels, speeds in micro-pixels per millisecond,
//! time in milliseconds, difficulty and volume in tenths.

pub mod entity;
pub mod rules;
pub mod geometry;
pub mod world;
pub mod spawn;
pub mod motion;
pub mod collide;
pub mod frame;
pub mod persist;
