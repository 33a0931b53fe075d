//! Domain model: tasks, schedules, actions, targets, history, settings.

pub mod action;
pub mod history;
pub mod key;
pub mod presets;
pub mod schedule;
pub mod settings;
pub mod target;
pub mod task;
pub mod zones;
