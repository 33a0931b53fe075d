//! Scheduler: owns firing decisions.

pub mod clock;
pub mod engine;
