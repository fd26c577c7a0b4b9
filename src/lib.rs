//! Decoding of a toothed trigger wheel: raw capture timestamps of tooth
//! edges become tooth-to-tooth intervals, and each edge becomes a decision
//! for the state estimator that follows.

pub mod decoder;
pub mod geometry;
pub mod history;
pub mod ticks;
