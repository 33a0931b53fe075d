//! Structured errors: every error carries a stable machine-readable code and a
//! human-readable message.

use vstd::prelude::*;

use crate::model::task::TaskId;
use crate::text::{join2, owned, uuid_text};

verus! {

/// Typed application errors.
#[derive(Debug, PartialEq, Eq)]
pub enum AppError {
    /// No window matched the target criteria.
    TargetNotFound,
    /// Multiple windows matched; refusing to guess.
    TargetAmbiguous,
    /// The matched window is not visible.
    TargetNotVisible,
    /// The target could not be brought to the foreground.
    FailedToActivateTarget,
    /// The target lost focus during a sequence; input aborted.
    TargetLostFocus,
    /// A keyboard input call failed.
    InputInjectionFailed,
    /// A schedule description is invalid (e.g. zero interval, past deadline).
    InvalidSchedule(String),
    /// Persistence layer failed (read/write/corruption without fallback).
    PersistenceFailure(String),
    /// The task is disabled and cannot run.
    TaskDisabled,
    /// Another task is already executing a sequence.
    ExecutionAlreadyRunning,
    /// Task with the given id does not exist.
    TaskNotFound(TaskId),
    /// Window title match mode was given an invalid regex.
    InvalidTitleRegex(String),
    /// Shared application state could not be reached.
    StateUnavailable(String),
    /// The desktop automation backend cannot work in this session.
    AutomationUnavailable(String),
    /// A modifier key is held down, so input would turn into a shortcut.
    ModifierKeyHeld,
    /// An action cannot be carried out on this platform.
    InvalidAction(String),
    /// The task was paused, edited or deleted while it ran; the remaining
    /// input was not sent.
    ExecutionCancelled,
}

impl Clone for AppError {
    fn clone(&self) -> (r: Self)
        ensures
            r == *self,
    {
        match self {
            AppError::TargetNotFound => AppError::TargetNotFound,
            AppError::TargetAmbiguous => AppError::TargetAmbiguous,
            AppError::TargetNotVisible => AppError::TargetNotVisible,
            AppError::FailedToActivateTarget => AppError::FailedToActivateTarget,
            AppError::TargetLostFocus => AppError::TargetLostFocus,
            AppError::InputInjectionFailed => AppError::InputInjectionFailed,
            AppError::InvalidSchedule(m) => AppError::InvalidSchedule(m.clone()),
            AppError::PersistenceFailure(m) => AppError::PersistenceFailure(m.clone()),
            AppError::TaskDisabled => AppError::TaskDisabled,
            AppError::ExecutionAlreadyRunning => AppError::ExecutionAlreadyRunning,
            AppError::TaskNotFound(id) => AppError::TaskNotFound(*id),
            AppError::InvalidTitleRegex(m) => AppError::InvalidTitleRegex(m.clone()),
            AppError::StateUnavailable(m) => AppError::StateUnavailable(m.clone()),
            AppError::AutomationUnavailable(m) => AppError::AutomationUnavailable(m.clone()),
            AppError::ModifierKeyHeld => AppError::ModifierKeyHeld,
            AppError::InvalidAction(m) => AppError::InvalidAction(m.clone()),
            AppError::ExecutionCancelled => AppError::ExecutionCancelled,
        }
    }
}

/// Convenient alias for fallible application operations.
pub type AppResult<T> = Result<T, AppError>;

impl AppError {
    /// The stable code of an error: the name of its variant.
    pub open spec fn code_text(self) -> Seq<char> {
        match self {
            AppError::TargetNotFound => "TargetNotFound"@,
            AppError::TargetAmbiguous => "TargetAmbiguous"@,
            AppError::TargetNotVisible => "TargetNotVisible"@,
            AppError::FailedToActivateTarget => "FailedToActivateTarget"@,
            AppError::TargetLostFocus => "TargetLostFocus"@,
            AppError::InputInjectionFailed => "InputInjectionFailed"@,
            AppError::InvalidSchedule(_) => "InvalidSchedule"@,
            AppError::PersistenceFailure(_) => "PersistenceFailure"@,
            AppError::TaskDisabled => "TaskDisabled"@,
            AppError::ExecutionAlreadyRunning => "ExecutionAlreadyRunning"@,
            AppError::TaskNotFound(_) => "TaskNotFound"@,
            AppError::InvalidTitleRegex(_) => "InvalidTitleRegex"@,
            AppError::StateUnavailable(_) => "StateUnavailable"@,
            AppError::AutomationUnavailable(_) => "AutomationUnavailable"@,
            AppError::ModifierKeyHeld => "ModifierKeyHeld"@,
            AppError::InvalidAction(_) => "InvalidAction"@,
            AppError::ExecutionCancelled => "ExecutionCancelled"@,
        }
    }

    /// The human-readable message of an error.
    pub open spec fn message_text(self) -> Seq<char> {
        match self {
            AppError::TargetNotFound => "no window matched the target criteria"@,
            AppError::TargetAmbiguous =>
                "multiple windows matched the target criteria; refine the matching"@,
            AppError::TargetNotVisible => "the target window is not visible"@,
            AppError::FailedToActivateTarget =>
                "target window could not be activated; no keyboard input was sent"@,
            AppError::TargetLostFocus => "target lost focus during execution; input aborted"@,
            AppError::InputInjectionFailed => "keyboard input injection failed"@,
            AppError::InvalidSchedule(m) => "invalid schedule: "@ + m@,
            AppError::PersistenceFailure(m) => "persistence failure: "@ + m@,
            AppError::TaskDisabled => "task is disabled"@,
            AppError::ExecutionAlreadyRunning => "another task execution is already running"@,
            AppError::TaskNotFound(id) => "task not found: "@ + uuid_text(id.value as nat),
            AppError::InvalidTitleRegex(m) => "invalid title regex: "@ + m@,
            AppError::StateUnavailable(m) => "application state unavailable: "@ + m@,
            AppError::AutomationUnavailable(m) => "desktop automation unavailable: "@ + m@,
            AppError::ModifierKeyHeld => "a modifier key is held down; input aborted"@,
            AppError::InvalidAction(m) => "invalid action: "@ + m@,
            AppError::ExecutionCancelled =>
                "execution cancelled: the task was paused, edited or deleted"@,
        }
    }

    /// Stable machine-readable code for the frontend / history records.
    pub fn code(&self) -> (r: &'static str)
        ensures
            r@ == self.code_text(),
    {
        match self {
            AppError::TargetNotFound => "TargetNotFound",
            AppError::TargetAmbiguous => "TargetAmbiguous",
            AppError::TargetNotVisible => "TargetNotVisible",
            AppError::FailedToActivateTarget => "FailedToActivateTarget",
            AppError::TargetLostFocus => "TargetLostFocus",
            AppError::InputInjectionFailed => "InputInjectionFailed",
            AppError::InvalidSchedule(_) => "InvalidSchedule",
            AppError::PersistenceFailure(_) => "PersistenceFailure",
            AppError::TaskDisabled => "TaskDisabled",
            AppError::ExecutionAlreadyRunning => "ExecutionAlreadyRunning",
            AppError::TaskNotFound(_) => "TaskNotFound",
            AppError::InvalidTitleRegex(_) => "InvalidTitleRegex",
            AppError::StateUnavailable(_) => "StateUnavailable",
            AppError::AutomationUnavailable(_) => "AutomationUnavailable",
            AppError::ModifierKeyHeld => "ModifierKeyHeld",
            AppError::InvalidAction(_) => "InvalidAction",
            AppError::ExecutionCancelled => "ExecutionCancelled",
        }
    }

    /// Human-readable message (what the error displays as).
    pub fn message(&self) -> (r: String)
        ensures
            r@ == self.message_text(),
    {
        match self {
            AppError::TargetNotFound => owned("no window matched the target criteria"),
            AppError::TargetAmbiguous => owned(
                "multiple windows matched the target criteria; refine the matching",
            ),
            AppError::TargetNotVisible => owned("the target window is not visible"),
            AppError::FailedToActivateTarget => owned(
                "target window could not be activated; no keyboard input was sent",
            ),
            AppError::TargetLostFocus => owned("target lost focus during execution; input aborted"),
            AppError::InputInjectionFailed => owned("keyboard input injection failed"),
            AppError::InvalidSchedule(m) => join2("invalid schedule: ", m.as_str()),
            AppError::PersistenceFailure(m) => join2("persistence failure: ", m.as_str()),
            AppError::TaskDisabled => owned("task is disabled"),
            AppError::ExecutionAlreadyRunning => owned("another task execution is already running"),
            AppError::TaskNotFound(id) => {
                let text = crate::text::format_uuid(id.value);
                join2("task not found: ", text.as_str())
            },
            AppError::InvalidTitleRegex(m) => join2("invalid title regex: ", m.as_str()),
            AppError::StateUnavailable(m) => join2("application state unavailable: ", m.as_str()),
            AppError::AutomationUnavailable(m) => join2(
                "desktop automation unavailable: ",
                m.as_str(),
            ),
            AppError::ModifierKeyHeld => owned("a modifier key is held down; input aborted"),
            AppError::InvalidAction(m) => join2("invalid action: ", m.as_str()),
            AppError::ExecutionCancelled => owned(
                "execution cancelled: the task was paused, edited or deleted",
            ),
        }
    }
}

/// Wire representation of an error: its code and its message.
#[derive(Debug, PartialEq, Eq)]
pub struct SerializedError {
    pub code: String,
    pub message: String,
}

impl SerializedError {
    /// The wire form of `e`.
    pub fn from_error(e: &AppError) -> (r: SerializedError)
        ensures
            r.code@ == e.code_text(),
            r.message@ == e.message_text(),
    {
        SerializedError { code: owned(e.code()), message: e.message() }
    }
}

} // verus!
