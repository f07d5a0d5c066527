//! The verified rules of a RoboMaster match simulator.

pub mod base;
pub mod binary;
pub mod field;
pub mod game;
pub mod input;
pub mod outpost;
pub mod projectile;

pub mod referee;
pub mod rune;
pub mod simulation;
pub mod target;
pub mod view;
pub mod wire;
pub mod zones;
