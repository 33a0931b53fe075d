use agent_pulse::error::{AppError, SerializedError};
use agent_pulse::model::task::TaskId;

#[test]
fn error_codes_are_stable() {
    assert_eq!(AppError::TargetAmbiguous.code(), "TargetAmbiguous");
    assert_eq!(AppError::InvalidSchedule("x".into()).code(), "InvalidSchedule");
}

#[test]
fn every_error_has_a_code_and_message() {
    let all = [
        AppError::TargetNotFound,
        AppError::TargetAmbiguous,
        AppError::TargetNotVisible,
        AppError::FailedToActivateTarget,
        AppError::TargetLostFocus,
        AppError::InputInjectionFailed,
        AppError::InvalidSchedule("x".into()),
        AppError::PersistenceFailure("x".into()),
        AppError::TaskDisabled,
        AppError::ExecutionAlreadyRunning,
        AppError::TaskNotFound(TaskId { value: 1 }),
        AppError::InvalidTitleRegex("x".into()),
        AppError::StateUnavailable("x".into()),
        AppError::AutomationUnavailable("x".into()),
        AppError::ModifierKeyHeld,
        AppError::InvalidAction("x".into()),
        AppError::ExecutionCancelled,
    ];
    for e in &all {
        assert!(!e.code().is_empty());
        assert!(!e.message().is_empty());
        let wire = SerializedError::from_error(e);
        assert_eq!(wire.code, e.code());
        assert_eq!(wire.message, e.message());
    }
}

#[test]
fn messages_carry_their_details() {
    assert_eq!(AppError::InvalidSchedule("boom".into()).message(), "invalid schedule: boom");
    assert_eq!(AppError::PersistenceFailure("disk".into()).message(), "persistence failure: disk");
    assert_eq!(
        AppError::TaskNotFound(TaskId { value: 0x0123_4567_89ab_cdef_0123_4567_89ab_cdef }).message(),
        "task not found: 01234567-89ab-cdef-0123-456789abcdef"
    );
    assert_eq!(
        SerializedError::from_error(&AppError::TargetNotFound),
        SerializedError {
            code: "TargetNotFound".into(),
            message: "no window matched the target criteria".into(),
        }
    );
}
