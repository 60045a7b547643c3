//! A time-discrete, multi-agent racing simulator for Formula-style events.
//!
//! The engine advances a shared race clock in fixed time steps, evolving every
//! competitor's position, tire state, fuel and interaction state, and records
//! lap times, cumulative race times and discrete race events (weather changes,
//! safety-car deployments, crashes, engine failures).
//!
//! All physical quantities are fixed-point integers:
//! - times are milliseconds (`u64` for clocks and lap times, `i64` for offsets),
//! - arc lengths are millimetres,
//! - speeds are millimetres per second,
//! - dimensionless factors (multipliers, consistency, aggression, wear) are
//!   thousandths ("milli", 1000 = 1.0),
//! - probabilities are parts per million ("ppm", 1_000_000 = 1.0).
//!
//! Randomness (pace noise, failures, weather, pit standstill duration) is drawn
//! from a seedable generator so that runs are reproducible.

pub mod car;
pub mod driver;
pub mod general;
pub mod gui_interface;
pub mod race;
pub mod race_result;
pub mod rng;
pub mod state_handler;
pub mod tireset;
pub mod track;

pub use general::{argmax, argsort, max, InputValueError, SortOrder};
