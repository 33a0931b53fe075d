use std::cell::RefCell;

use agent_pulse::error::{AppError, AppResult};
use agent_pulse::executor::action_executor::{
    completion_notice, describe, finish_run, history_record, outcome_for, refused_run_record,
    run_scheduled_at,
    Phase, Reply, Request, Sequencer, FOCUS_RECHECK_DELAY_MS,
};
use agent_pulse::model::action::Action;
use agent_pulse::model::history::ExecutionOutcome;
use agent_pulse::model::key::Key;
use agent_pulse::model::schedule::{MisfirePolicy, Schedule};
use agent_pulse::model::settings::Settings;
use agent_pulse::model::target::{TitleMatchMode, WindowCandidate, WindowTarget};
use agent_pulse::model::task::{ScheduledTask, TaskId};
use agent_pulse::time::UtcTime;

fn task_id(value: u128) -> TaskId {
    TaskId { value }
}

#[derive(Debug, Clone, PartialEq, Eq)]
enum MockEvent {
    Restore(u64),
    Activate(u64),
    TypeText(String),
    PressKey(Key, u32),
    Combination(Vec<Key>),
}

/// A desktop that records what it is asked to do and never injects input.
struct MockPlatform {
    events: RefCell<Vec<MockEvent>>,
    windows: Vec<WindowCandidate>,
    fail_activation: bool,
    lose_focus_after: Option<usize>,
    fail_input: bool,
    /// Activation fails once this many events were recorded.
    refuse_activation_after: Option<usize>,
    /// The run stops being current once this many events were recorded.
    cancel_after: Option<usize>,
    enumerations: RefCell<usize>,
}

impl MockPlatform {
    fn new(windows: Vec<WindowCandidate>) -> Self {
        MockPlatform {
            events: RefCell::new(Vec::new()),
            windows,
            fail_activation: false,
            lose_focus_after: None,
            fail_input: false,
            refuse_activation_after: None,
            cancel_after: None,
            enumerations: RefCell::new(0),
        }
    }

    fn recorded(&self) -> Vec<MockEvent> {
        self.events.borrow().clone()
    }

    fn input(&self, event: MockEvent) -> Reply {
        if self.fail_input {
            return Reply::Outcome(Err(AppError::InputInjectionFailed));
        }
        self.events.borrow_mut().push(event);
        Reply::Outcome(Ok(()))
    }

    fn answer(&self, request: Request, notify: &dyn Fn(&str)) -> Reply {
        match request {
            Request::VerifyCached { hwnd } => {
                Reply::Cached(self.windows.iter().find(|w| w.hwnd == hwnd).cloned())
            }
            Request::Enumerate => {
                *self.enumerations.borrow_mut() += 1;
                Reply::Windows(self.windows.clone())
            }
            Request::Restore { hwnd } => {
                self.events.borrow_mut().push(MockEvent::Restore(hwnd));
                Reply::Done
            }
            Request::Activate { hwnd } => {
                let count = self.events.borrow().len();
                if self.fail_activation || self.refuse_activation_after.map_or(false, |n| count >= n)
                {
                    return Reply::Outcome(Err(AppError::FailedToActivateTarget));
                }
                self.events.borrow_mut().push(MockEvent::Activate(hwnd));
                Reply::Outcome(Ok(()))
            }
            Request::IsForeground { .. } => {
                let count = self.events.borrow().len();
                Reply::Foreground(match self.lose_focus_after {
                    Some(after) => count <= after,
                    None => true,
                })
            }
            Request::TypeText { text, .. } => self.input(MockEvent::TypeText(text)),
            Request::PressKey { key, count, .. } => self.input(MockEvent::PressKey(key, count)),
            Request::PressCombination { keys, .. } => self.input(MockEvent::Combination(keys)),
            Request::Sleep { .. } => Reply::Done,
            Request::StillCurrent => {
                let count = self.events.borrow().len();
                Reply::Current(self.cancel_after.map_or(true, |n| count < n))
            }
            Request::Notify { message } => {
                notify(&message);
                Reply::Done
            }
            Request::Finished { .. } => unreachable!("a finished run asks for nothing"),
        }
    }
}

/// Run a task against the mock desktop as the application does.
fn execute_task(
    platform: &MockPlatform,
    task: &mut ScheduledTask,
    settings: &Settings,
    notify: &dyn Fn(&str),
) -> ExecutionOutcome {
    let mut run = Sequencer::new(task.clone(), settings);
    let mut reply = Reply::Start;
    let result = loop {
        match run.step(reply) {
            Request::Finished { result } => break result,
            request => reply = platform.answer(request, notify),
        }
    };
    *task = run.task.clone();
    outcome_for(&result)
}

fn utc(secs: i64) -> UtcTime {
    UtcTime::from_timestamp(secs).expect("test ts")
}

fn terminal_window(hwnd: u64, title: &str) -> WindowCandidate {
    WindowCandidate {
        hwnd,
        title: title.into(),
        process_id: 18244,
        process_name: "WindowsTerminal.exe".into(),
        executable_path: None,
        is_visible: true,
    }
}

fn continue_task(target: WindowTarget, actions: Vec<Action>) -> ScheduledTask {
    ScheduledTask {
        id: task_id(1),
        name: "Codex Continue".into(),
        enabled: true,
        target,
        schedule: Schedule::After { hours: 0, minutes: 0, seconds: 10 },
        actions,
        misfire_policy: MisfirePolicy::RunImmediately,
        created_at: utc(1_000),
        updated_at: utc(1_000),
        last_run_at: None,
        next_run_at: None,
    }
}

fn enter() -> Action {
    Action::PressKey { key: Key::Enter, count: 1, interval_ms: 0 }
}

fn continue_actions() -> Vec<Action> {
    vec![
        Action::FocusTarget,
        Action::TypeText { text: "continue".into() },
        enter(),
        Action::Delay { milliseconds: 0 },
        enter(),
    ]
}

fn contains_target() -> WindowTarget {
    WindowTarget {
        title: Some("Codex".into()),
        title_match_mode: TitleMatchMode::Contains,
        ..Default::default()
    }
}

fn failure_code(outcome: &ExecutionOutcome) -> Option<&str> {
    match outcome {
        ExecutionOutcome::Failure { error_code, .. } => Some(error_code.as_str()),
        ExecutionOutcome::Success => None,
    }
}

#[test]
fn exact_action_ordering() {
    let platform = MockPlatform::new(vec![terminal_window(42, "Codex — rust-reality")]);
    let mut task = continue_task(contains_target(), continue_actions());
    let settings = Settings::default();

    let outcome = execute_task(&platform, &mut task, &settings, &|_| {});
    assert_eq!(outcome, ExecutionOutcome::Success);
    assert_eq!(
        platform.recorded(),
        vec![
            MockEvent::Restore(42),
            MockEvent::Activate(42),
            MockEvent::Activate(42),
            MockEvent::TypeText("continue".into()),
            MockEvent::PressKey(Key::Enter, 1),
            MockEvent::PressKey(Key::Enter, 1),
        ]
    );
    assert_eq!(task.target.last_hwnd, Some(42));
}

#[test]
fn cached_hwnd_is_verified_first_without_enumeration() {
    let platform = MockPlatform::new(vec![terminal_window(42, "Codex — rust-reality")]);
    let mut task = continue_task(contains_target(), vec![Action::FocusTarget]);
    task.target.last_hwnd = Some(42);
    let settings = Settings::default();

    let outcome = execute_task(&platform, &mut task, &settings, &|_| {});
    assert_eq!(outcome, ExecutionOutcome::Success);
    assert_eq!(task.target.last_hwnd, Some(42));
}

#[test]
fn cached_window_does_not_bypass_ambiguity() {
    let platform = MockPlatform::new(vec![
        terminal_window(1, "Codex — alpha"),
        terminal_window(2, "Codex — beta"),
    ]);
    let mut task = continue_task(contains_target(), continue_actions());
    task.target.last_hwnd = Some(1);
    let outcome = execute_task(&platform, &mut task, &Settings::default(), &|_| {});
    assert_eq!(failure_code(&outcome), Some("TargetAmbiguous"));
    assert!(platform.recorded().is_empty());
    assert_eq!(*platform.enumerations.borrow(), 1);
}

#[test]
fn focus_checks_off_reactivate_before_each_input() {
    let mut platform = MockPlatform::new(vec![terminal_window(42, "Codex — rust-reality")]);
    platform.lose_focus_after = Some(3);
    let mut task = continue_task(contains_target(), continue_actions());
    let settings = Settings { abort_on_focus_loss: false, ..Default::default() };

    let outcome = execute_task(&platform, &mut task, &settings, &|_| {});
    assert_eq!(outcome, ExecutionOutcome::Success);
    assert_eq!(
        platform.recorded(),
        vec![
            MockEvent::Restore(42),
            MockEvent::Activate(42),
            MockEvent::Activate(42),
            MockEvent::TypeText("continue".into()),
            MockEvent::Activate(42),
            MockEvent::PressKey(Key::Enter, 1),
            MockEvent::Activate(42),
            MockEvent::PressKey(Key::Enter, 1),
        ]
    );
}

#[test]
fn failed_reactivation_stops_input() {
    let mut platform = MockPlatform::new(vec![terminal_window(42, "Codex — rust-reality")]);
    platform.lose_focus_after = Some(3);
    platform.refuse_activation_after = Some(4);
    let mut task = continue_task(contains_target(), continue_actions());
    let settings = Settings { abort_on_focus_loss: false, ..Default::default() };

    let outcome = execute_task(&platform, &mut task, &settings, &|_| {});
    assert_eq!(failure_code(&outcome), Some("FailedToActivateTarget"));
    assert!(platform.recorded().iter().all(|e| !matches!(e, MockEvent::PressKey(_, _))));
}

#[test]
fn cancelled_run_sends_no_more_input() {
    let mut platform = MockPlatform::new(vec![terminal_window(42, "Codex — rust-reality")]);
    platform.cancel_after = Some(4);
    let mut task = continue_task(contains_target(), continue_actions());

    let outcome = execute_task(&platform, &mut task, &Settings::default(), &|_| {});
    assert_eq!(
        outcome,
        ExecutionOutcome::Failure {
            error_code: "ExecutionCancelled".into(),
            error_message: "execution cancelled: the task was paused, edited or deleted".into(),
        }
    );
    let recorded = platform.recorded();
    assert!(recorded.contains(&MockEvent::TypeText("continue".into())));
    assert!(recorded.iter().all(|e| !matches!(e, MockEvent::PressKey(_, _))));
}

#[test]
fn cancellation_is_seen_after_a_delay() {
    let mut platform = MockPlatform::new(vec![terminal_window(42, "Codex — rust-reality")]);
    platform.cancel_after = Some(3);
    let actions = vec![Action::FocusTarget, Action::Delay { milliseconds: 10 }, enter()];
    let mut task = continue_task(contains_target(), actions);

    let outcome = execute_task(&platform, &mut task, &Settings::default(), &|_| {});
    assert_eq!(failure_code(&outcome), Some("ExecutionCancelled"));
    assert!(platform.recorded().iter().all(|e| !matches!(e, MockEvent::PressKey(_, _))));
}

#[test]
fn input_is_preceded_by_focus_and_currency_checks() {
    let task = continue_task(contains_target(), vec![enter()]);
    let mut run = Sequencer::new(task, &Settings::default());
    assert_eq!(run.step(Reply::Start), Request::Enumerate);
    let windows = vec![terminal_window(42, "Codex")];
    assert_eq!(run.step(Reply::Windows(windows)), Request::Restore { hwnd: 42 });
    assert_eq!(run.step(Reply::Done), Request::Activate { hwnd: 42 });
    assert_eq!(run.step(Reply::Outcome(Ok(()))), Request::IsForeground { hwnd: 42 });
    assert_eq!(run.step(Reply::Foreground(true)), Request::StillCurrent);
    assert_eq!(
        run.step(Reply::Current(true)),
        Request::PressKey { hwnd: 42, key: Key::Enter, count: 1, interval_ms: 0 }
    );
}

#[test]
fn stale_cached_hwnd_is_dropped_and_resolution_enumerates() {
    let platform = MockPlatform::new(vec![terminal_window(7, "Codex — rust-reality")]);
    let mut task = continue_task(contains_target(), vec![Action::FocusTarget]);
    task.target.last_hwnd = Some(42);
    let outcome = execute_task(&platform, &mut task, &Settings::default(), &|_| {});
    assert_eq!(outcome, ExecutionOutcome::Success);
    assert_eq!(task.target.last_hwnd, Some(7));
    assert_eq!(*platform.enumerations.borrow(), 1);
}

#[test]
fn activation_failure_sends_no_input() {
    let mut platform = MockPlatform::new(vec![terminal_window(42, "Codex — rust-reality")]);
    platform.fail_activation = true;
    let mut task = continue_task(contains_target(), continue_actions());
    let settings = Settings::default();

    let outcome = execute_task(&platform, &mut task, &settings, &|_| {});
    assert_eq!(
        outcome,
        ExecutionOutcome::Failure {
            error_code: "FailedToActivateTarget".into(),
            error_message: "target window could not be activated; no keyboard input was sent".into(),
        }
    );
    assert!(platform
        .recorded()
        .iter()
        .all(|e| !matches!(e, MockEvent::TypeText(_) | MockEvent::PressKey(_, _))));
}

#[test]
fn ambiguous_target_aborts_without_input() {
    let platform = MockPlatform::new(vec![
        terminal_window(1, "Codex — alpha"),
        terminal_window(2, "Codex — beta"),
    ]);
    let mut task = continue_task(contains_target(), continue_actions());
    let settings = Settings::default();

    let outcome = execute_task(&platform, &mut task, &settings, &|_| {});
    assert_eq!(
        outcome,
        ExecutionOutcome::Failure {
            error_code: "TargetAmbiguous".into(),
            error_message: "multiple windows matched the target criteria; refine the matching".into(),
        }
    );
    assert!(platform.recorded().is_empty());
}

#[test]
fn target_not_found_aborts_without_input() {
    let platform = MockPlatform::new(vec![terminal_window(1, "Totally unrelated")]);
    let mut task = continue_task(contains_target(), continue_actions());
    let settings = Settings::default();

    let outcome = execute_task(&platform, &mut task, &settings, &|_| {});
    assert_eq!(failure_code(&outcome), Some("TargetNotFound"));
    assert!(platform.recorded().is_empty());
}

#[test]
fn focus_loss_mid_sequence_aborts_before_next_input() {
    let mut platform = MockPlatform::new(vec![terminal_window(42, "Codex — rust-reality")]);
    platform.lose_focus_after = Some(4);
    let mut task = continue_task(contains_target(), continue_actions());
    let settings = Settings::default();

    let outcome = execute_task(&platform, &mut task, &settings, &|_| {});
    assert_eq!(failure_code(&outcome), Some("TargetLostFocus"));
    let recorded = platform.recorded();
    assert_eq!(
        recorded.iter().filter(|e| matches!(e, MockEvent::PressKey(Key::Enter, _))).count(),
        1
    );
}

#[test]
fn focus_loss_can_be_disabled_by_setting() {
    let mut platform = MockPlatform::new(vec![terminal_window(42, "Codex — rust-reality")]);
    platform.lose_focus_after = Some(3);
    let mut task = continue_task(contains_target(), continue_actions());
    let settings = Settings { abort_on_focus_loss: false, ..Default::default() };

    let outcome = execute_task(&platform, &mut task, &settings, &|_| {});
    assert_eq!(outcome, ExecutionOutcome::Success);
}

#[test]
fn input_failure_is_structured() {
    let mut platform = MockPlatform::new(vec![terminal_window(42, "Codex — rust-reality")]);
    platform.fail_input = true;
    let mut task = continue_task(contains_target(), continue_actions());
    let settings = Settings::default();

    let outcome = execute_task(&platform, &mut task, &settings, &|_| {});
    assert_eq!(failure_code(&outcome), Some("InputInjectionFailed"));
}

#[test]
fn key_combination_reaches_platform() {
    let platform = MockPlatform::new(vec![terminal_window(42, "Codex — rust-reality")]);
    let actions = vec![
        Action::FocusTarget,
        Action::KeyCombination { keys: vec![Key::Ctrl, Key::Letter('c')] },
    ];
    let mut task = continue_task(contains_target(), actions);
    let settings = Settings::default();

    let outcome = execute_task(&platform, &mut task, &settings, &|_| {});
    assert_eq!(outcome, ExecutionOutcome::Success);
    assert!(platform
        .recorded()
        .contains(&MockEvent::Combination(vec![Key::Ctrl, Key::Letter('c')])));
}

#[test]
fn notify_action_invokes_callback() {
    let platform = MockPlatform::new(vec![terminal_window(42, "Codex — rust-reality")]);
    let actions = vec![Action::FocusTarget, Action::Notify { message: "hello".into() }];
    let mut task = continue_task(contains_target(), actions);
    let settings = Settings::default();

    let received = RefCell::new(Vec::<String>::new());
    let outcome = execute_task(&platform, &mut task, &settings, &|m| {
        received.borrow_mut().push(m.to_string());
    });
    assert_eq!(outcome, ExecutionOutcome::Success);
    assert_eq!(*received.borrow(), vec!["hello".to_string()]);
}

#[test]
fn long_delay_rechecks_focus() {
    let mut platform = MockPlatform::new(vec![terminal_window(42, "Codex — rust-reality")]);
    platform.lose_focus_after = Some(2);
    let actions = vec![Action::FocusTarget, Action::Delay { milliseconds: FOCUS_RECHECK_DELAY_MS }];
    let mut task = continue_task(contains_target(), actions);
    let settings = Settings::default();

    let outcome = execute_task(&platform, &mut task, &settings, &|_| {});
    assert_eq!(failure_code(&outcome), Some("TargetLostFocus"));
}

#[test]
fn first_requests_of_a_run() {
    let mut task = continue_task(contains_target(), continue_actions());
    task.target.last_hwnd = Some(9);
    let mut run = Sequencer::new(task, &Settings::default());
    assert_eq!(run.step(Reply::Start), Request::VerifyCached { hwnd: 9 });
    assert_eq!(run.phase, Phase::AwaitCached);
    assert_eq!(run.step(Reply::Cached(None)), Request::Enumerate);
    assert_eq!(run.task.target.last_hwnd, None);
}

#[test]
fn long_delays_are_capped_to_u32_milliseconds() {
    let platform = MockPlatform::new(vec![terminal_window(42, "Codex")]);
    let task = continue_task(contains_target(), vec![Action::Delay { milliseconds: u64::MAX }]);
    let settings = Settings { abort_on_focus_loss: false, ..Default::default() };
    let mut run = Sequencer::new(task, &settings);
    let mut reply = Reply::Start;
    let mut sleeps = Vec::new();
    loop {
        match run.step(reply) {
            Request::Finished { result } => {
                assert_eq!(result, Ok("Codex (WindowsTerminal.exe, PID 18244)".to_string()));
                break;
            }
            Request::Sleep { milliseconds } => {
                sleeps.push(milliseconds);
                reply = Reply::Done;
            }
            request => reply = platform.answer(request, &|_| {}),
        }
    }
    assert_eq!(sleeps, vec![u32::MAX as u64]);
}

#[test]
fn disabled_task_does_not_start() {
    let mut task = continue_task(contains_target(), continue_actions());
    task.enabled = false;
    assert!(matches!(Sequencer::start(task, &Settings::default()), Err(AppError::TaskDisabled)));
    let enabled = continue_task(contains_target(), continue_actions());
    let run = Sequencer::start(enabled, &Settings::default()).expect("enabled task starts");
    assert_eq!(run.phase, Phase::Start);
}

#[test]
fn description_names_title_process_and_pid() {
    let w = terminal_window(42, "Codex — rust-reality");
    assert_eq!(describe(&w), "Codex — rust-reality (WindowsTerminal.exe, PID 18244)");
}

#[test]
fn finished_run_reports_target_description() {
    let mut task = continue_task(contains_target(), continue_actions());
    let ok: AppResult<String> = Ok("w (p, PID 1)".into());
    assert_eq!(finish_run(&task, &ok), (ExecutionOutcome::Success, "w (p, PID 1)".to_string()));
    let err: AppResult<String> = Err(AppError::TargetNotFound);
    let (outcome, description) = finish_run(&task, &err);
    assert_eq!(failure_code(&outcome), Some("TargetNotFound"));
    assert_eq!(description, "unresolved target");
    task.target.last_hwnd = Some(3);
    assert_eq!(finish_run(&task, &err).1, "resolved target");
}

#[test]
fn history_record_carries_the_run() {
    let task = continue_task(contains_target(), continue_actions());
    let record = history_record(&task, utc(10), utc(11), "w", ExecutionOutcome::Success);
    assert_eq!(record.task_id, task.id);
    assert_eq!(record.task_name, "Codex Continue");
    assert_eq!(record.scheduled_at, utc(10));
    assert_eq!(record.started_at, utc(11));
    assert_eq!(record.target_description, "w");
    assert!(record.finished_at >= utc(11));
    assert!(record.duration_ms() >= 0);
}

#[test]
fn refused_run_is_recorded_as_unresolved() {
    let task = continue_task(contains_target(), continue_actions());
    let record = refused_run_record(&task, utc(10), utc(11), &AppError::ExecutionAlreadyRunning);
    assert_eq!(record.target_description, "unresolved target");
    assert_eq!(
        record.outcome,
        ExecutionOutcome::Failure {
            error_code: "ExecutionAlreadyRunning".into(),
            error_message: "another task execution is already running".into(),
        }
    );
}

#[test]
fn completion_notice_follows_settings() {
    let settings = Settings::default();
    assert_eq!(
        completion_notice(&settings, "Nightly", &ExecutionOutcome::Success),
        Some("Nightly: keyboard sequence sent.".to_string())
    );
    let failure = ExecutionOutcome::Failure {
        error_code: "TargetNotFound".into(),
        error_message: "no window matched the target criteria".into(),
    };
    assert_eq!(
        completion_notice(&settings, "Nightly", &failure),
        Some("Nightly: no window matched the target criteria".to_string())
    );
    let quiet = Settings { notify_on_success: false, notify_on_failure: false, ..Default::default() };
    assert_eq!(completion_notice(&quiet, "Nightly", &ExecutionOutcome::Success), None);
    assert_eq!(completion_notice(&quiet, "Nightly", &failure), None);
}

#[test]
fn scheduled_runs_keep_their_original_due_time() {
    assert_eq!(run_scheduled_at(Some(utc(60)), Some(utc(120)), utc(75)), utc(60));
    assert_eq!(run_scheduled_at(None, Some(utc(120)), utc(75)), utc(120));
    assert_eq!(run_scheduled_at(None, None, utc(75)), utc(75));
}
