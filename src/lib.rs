//! Core rules of a 2D arcade fishing game: fish stats and behaviour, the
//! hook's tug-of-war, catch and extraction, stages, scoring and spawning.
//!
//! All quantities are integers: fractions in parts per million, strength,
//! energy and coefficients in thousandths, positions and velocities in
//! thousandths of a world unit, and time in milliseconds.

pub mod units;
pub mod random;
pub mod timer;
pub mod fish;
pub mod hook;
pub mod config;
pub mod state;
pub mod physics;
pub mod world;
pub mod spawn;
pub mod layers;
