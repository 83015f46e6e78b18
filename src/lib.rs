//! A two-paddle ball game on a bounded arena: the per-frame simulation pipeline
//! (input translation, paddle motion, ball motion, collision, scoring) and the state
//! machine that decides whether the pipeline runs.
//!
//! All coordinates are integers: a coordinate unit is a ten-thousandth of a world
//! unit, an axis sample is counted in thousandths, and time in milliseconds.

pub mod components;
pub mod config;
pub mod resources;
pub mod commands;
pub mod input;
pub mod paddles;
pub mod balls;
pub mod bounce;
pub mod winner;
pub mod states;
pub mod world;
pub mod laws;
