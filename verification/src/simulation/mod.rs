//! The authoritative simulation's pacing, shots and commands. The host clock
//! is converted to ticks here, never inside the field.

pub mod command;
pub mod construction;
pub mod laws;
pub mod orders;
pub mod pacing;
pub mod schedule;
pub mod shots;
pub mod sweep;
