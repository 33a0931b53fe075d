//! Executor: ordered, safe execution of action sequences.

pub mod action_executor;
