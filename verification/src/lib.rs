//! Agent Pulse core: schedules, reconciliation, window matching and the
//! safety-first action sequencer, with their contracts.

pub mod commands;
pub mod error;
pub mod executor;
pub mod model;
pub mod pattern;
pub mod platform;
pub mod scheduler;
pub mod store;
pub mod text;
pub mod time;

use vstd::prelude::*;

verus! {

/// How the application started: `None`, or the message of the error that
/// kept the store from loading, shown in the interface instead of silently
/// starting from empty data.
#[derive(Debug, PartialEq, Eq)]
pub struct StartupStatus(pub Option<String>);

} // verus!
