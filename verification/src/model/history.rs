//! Execution history model. Records are bounded by the store.

use vstd::prelude::*;

use crate::model::task::TaskId;
use crate::time::{elapsed_millis, millis_between, UtcTime};

verus! {

/// Outcome of one task execution.
#[derive(Debug, PartialEq, Eq)]
pub enum ExecutionOutcome {
    Success,
    Failure {
        /// Stable error code (see `AppError::code`).
        error_code: String,
        /// Human-readable explanation.
        error_message: String,
    },
}

impl Clone for ExecutionOutcome {
    fn clone(&self) -> (r: Self)
        ensures
            r == *self,
    {
        match self {
            ExecutionOutcome::Success => ExecutionOutcome::Success,
            ExecutionOutcome::Failure { error_code, error_message } => ExecutionOutcome::Failure {
                error_code: error_code.clone(),
                error_message: error_message.clone(),
            },
        }
    }
}

/// One historical execution of a task.
#[derive(Debug, PartialEq, Eq)]
pub struct HistoryRecord {
    pub id: TaskId,
    pub task_id: TaskId,
    pub task_name: String,
    /// When the task was scheduled to fire.
    pub scheduled_at: UtcTime,
    /// When execution actually started.
    pub started_at: UtcTime,
    /// When execution finished.
    pub finished_at: UtcTime,
    /// Human-readable description of the resolved target.
    pub target_description: String,
    pub outcome: ExecutionOutcome,
}

impl Clone for HistoryRecord {
    fn clone(&self) -> (r: Self)
        ensures
            r == *self,
    {
        HistoryRecord {
            id: self.id,
            task_id: self.task_id,
            task_name: self.task_name.clone(),
            scheduled_at: self.scheduled_at,
            started_at: self.started_at,
            finished_at: self.finished_at,
            target_description: self.target_description.clone(),
            outcome: self.outcome.clone(),
        }
    }
}

impl HistoryRecord {
    /// Whole milliseconds the execution took (truncated toward zero).
    pub fn duration_ms(&self) -> (r: i64)
        requires
            self.started_at.valid(),
            self.finished_at.valid(),
        ensures
            r == millis_between(self.started_at, self.finished_at),
    {
        elapsed_millis(self.started_at, self.finished_at)
    }
}

} // verus!
