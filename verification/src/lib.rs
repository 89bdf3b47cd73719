//! A verified tick-based colony-simulation engine.
//!
//! The engine tracks resources, buildings, research, population and
//! happiness for a single colony. All quantities are fixed-point numbers
//! held in hundredths, so every update is exact integer arithmetic.

pub mod types;
pub mod model;
pub mod colony;
pub mod laws;
