use agent_pulse::error::AppError;
use agent_pulse::model::action::Action;
use agent_pulse::model::schedule::{MisfirePolicy, Schedule};
use agent_pulse::model::target::WindowTarget;
use agent_pulse::model::task::{ScheduledTask, TaskId};
use agent_pulse::scheduler::clock::{Clock, SystemClock};
use agent_pulse::scheduler::engine::{
    compute_next_run, decide, plan_pass, reconcile, Decision, PassPlan, SchedulerState,
    IDLE_RECONCILE_NANOS,
};
use agent_pulse::time::UtcTime;

fn task_id(value: u128) -> TaskId {
    TaskId { value }
}

fn utc(secs: i64) -> UtcTime {
    UtcTime::from_timestamp(secs).expect("test ts")
}

fn task(
    name: &str,
    schedule: Schedule,
    policy: MisfirePolicy,
    next_run_at: Option<UtcTime>,
    enabled: bool,
) -> ScheduledTask {
    ScheduledTask {
        id: task_id(name.len() as u128),
        name: name.into(),
        enabled,
        target: WindowTarget::default(),
        schedule,
        actions: vec![Action::FocusTarget],
        misfire_policy: policy,
        created_at: utc(0),
        updated_at: utc(0),
        last_run_at: None,
        next_run_at,
    }
}

fn hourly() -> Schedule {
    Schedule::After { hours: 1, minutes: 0, seconds: 0 }
}

// --- decide() ---

#[test]
fn disabled_task_never_fires() {
    let t = task(
        "d",
        Schedule::After { hours: 0, minutes: 0, seconds: 1 },
        MisfirePolicy::RunImmediately,
        Some(utc(1)),
        false,
    );
    assert_eq!(decide(&t, utc(100)), Decision::Disabled);
}

#[test]
fn future_task_waits() {
    let t = task("w", hourly(), MisfirePolicy::RunImmediately, Some(utc(200)), true);
    assert_eq!(decide(&t, utc(100)), Decision::Wait);
}

#[test]
fn unarmed_task_waits() {
    let t = task("u", hourly(), MisfirePolicy::RunImmediately, None, true);
    assert_eq!(decide(&t, utc(100)), Decision::Wait);
}

#[test]
fn task_due_exactly_now_is_overdue() {
    let skip = task("n", hourly(), MisfirePolicy::Skip, Some(utc(100)), true);
    assert_eq!(decide(&skip, utc(100)), Decision::SkipOverdue);
    let run = task("n", hourly(), MisfirePolicy::RunImmediately, Some(utc(100)), true);
    assert_eq!(decide(&run, utc(100)), Decision::Fire);
}

#[test]
fn overdue_run_immediately_fires() {
    let t = task("f", hourly(), MisfirePolicy::RunImmediately, Some(utc(50)), true);
    assert_eq!(decide(&t, utc(100)), Decision::Fire);
}

#[test]
fn overdue_skip_cancels_one_shot() {
    let t = task("s", hourly(), MisfirePolicy::Skip, Some(utc(50)), true);
    assert_eq!(decide(&t, utc(100)), Decision::SkipOverdue);
}

#[test]
fn overdue_skip_cancels_recurring_occurrence() {
    let t = task(
        "s",
        Schedule::Every { interval_seconds: 60 },
        MisfirePolicy::Skip,
        Some(utc(50)),
        true,
    );
    assert_eq!(decide(&t, utc(200)), Decision::SkipOverdue);
}

// --- compute_next_run() ---

#[test]
fn one_shot_has_no_next_run() {
    let t = task("o", hourly(), MisfirePolicy::RunImmediately, Some(utc(60)), true);
    assert_eq!(compute_next_run(&t, utc(60), utc(60)).expect("next"), None);
}

#[test]
fn recurring_next_run_is_drift_free_after_large_jump() {
    let t = task(
        "r",
        Schedule::Every { interval_seconds: 60 },
        MisfirePolicy::RunImmediately,
        Some(utc(0)),
        true,
    );
    let next = compute_next_run(&t, utc(0), utc(601)).expect("next").expect("recurring");
    assert_eq!(next, utc(660));
}

#[test]
fn recurring_next_run_after_small_lateness() {
    let t = task(
        "r",
        Schedule::Every { interval_seconds: 60 },
        MisfirePolicy::RunImmediately,
        Some(utc(0)),
        true,
    );
    let next = compute_next_run(&t, utc(0), utc(61)).expect("next").expect("recurring");
    assert_eq!(next, utc(120));
}

// --- reconcile() ---

#[test]
fn reconcile_fires_and_updates_state() {
    let mut tasks = vec![task(
        "r",
        Schedule::Every { interval_seconds: 60 },
        MisfirePolicy::RunImmediately,
        Some(utc(60)),
        true,
    )];
    let report = reconcile(&mut tasks, utc(125));
    assert_eq!(report.fire.len(), 1);
    let t = &tasks[0];
    assert_eq!(t.last_run_at, Some(utc(125)));
    assert_eq!(t.next_run_at, Some(utc(180)));
}

#[test]
fn reconcile_skips_overdue_and_recomputes() {
    let mut tasks = vec![task(
        "s",
        Schedule::Every { interval_seconds: 60 },
        MisfirePolicy::Skip,
        Some(utc(60)),
        true,
    )];
    let report = reconcile(&mut tasks, utc(70));
    assert!(report.fire.is_empty());
    assert_eq!(report.skipped.len(), 1);
    assert_eq!(tasks[0].next_run_at, Some(utc(120)));
    assert_eq!(tasks[0].last_run_at, None);
}

#[test]
fn reconcile_restart_recovery_one_shot_run_immediately() {
    let mut tasks = vec![task(
        "restart",
        Schedule::After { hours: 5, minutes: 5, seconds: 0 },
        MisfirePolicy::RunImmediately,
        Some(utc(1000)),
        true,
    )];
    let report = reconcile(&mut tasks, utc(5000));
    assert_eq!(report.fire.len(), 1);
    assert_eq!(tasks[0].next_run_at, None);
}

#[test]
fn reconcile_sleep_like_jump() {
    let mut tasks = vec![task(
        "sleep",
        Schedule::Every { interval_seconds: 1800 },
        MisfirePolicy::RunImmediately,
        Some(utc(100)),
        true,
    )];
    let now = utc(100 + 12 * 3600);
    let report = reconcile(&mut tasks, now);
    assert_eq!(report.fire.len(), 1);
    let next = tasks[0].next_run_at.expect("recurring next");
    assert!(next > now);
    assert_eq!((next.nanos / 1_000_000_000 - 100) % 1800, 0);
}

#[test]
fn reconcile_ignores_disabled_and_future() {
    let mut tasks = vec![
        task("d", hourly(), MisfirePolicy::RunImmediately, Some(utc(1)), false),
        task("f", hourly(), MisfirePolicy::RunImmediately, Some(utc(500)), true),
    ];
    let report = reconcile(&mut tasks, utc(100));
    assert!(report.fire.is_empty());
    assert!(report.skipped.is_empty());
    assert_eq!(tasks[0].next_run_at, Some(utc(1)));
    assert_eq!(tasks[1].next_run_at, Some(utc(500)));
}

#[test]
fn one_shot_fire_clears_next_run() {
    let mut tasks = vec![task(
        "one",
        Schedule::After { hours: 0, minutes: 1, seconds: 0 },
        MisfirePolicy::RunImmediately,
        Some(utc(60)),
        true,
    )];
    let report = reconcile(&mut tasks, utc(61));
    assert_eq!(report.fire.len(), 1);
    assert_eq!(tasks[0].next_run_at, None);
}

#[test]
fn invalid_schedule_is_rejected() {
    let result = ScheduledTask::new(
        "bad".to_string(),
        WindowTarget::default(),
        Schedule::Every { interval_seconds: 0 },
        vec![],
        MisfirePolicy::default(),
        utc(0),
    );
    assert!(matches!(result, Err(AppError::InvalidSchedule(_))));
}

// --- one pass of the scheduler loop ---

#[test]
fn engine_thread_fires_overdue_task_and_reports_update() {
    let mut state = SchedulerState {
        tasks: vec![task("live", hourly(), MisfirePolicy::RunImmediately, Some(utc(100)), true)],
        paused: false,
        running: true,
    };
    match plan_pass(&mut state, utc(2000)) {
        PassPlan::Dispatch { fire, due, snapshot } => {
            assert_eq!(fire.len(), 1);
            assert_eq!(fire[0].name, "live");
            assert_eq!(due, vec![utc(100)]);
            assert_eq!(snapshot.len(), 1);
        }
        other => panic!("expected a dispatch, got {other:?}"),
    }
    assert_eq!(state.tasks[0].next_run_at, None);
}

#[test]
fn paused_engine_does_not_fire() {
    let mut state = SchedulerState {
        tasks: vec![task("paused", hourly(), MisfirePolicy::RunImmediately, Some(utc(100)), true)],
        paused: true,
        running: true,
    };
    match plan_pass(&mut state, utc(2000)) {
        PassPlan::Sleep { nanos } => assert_eq!(nanos, IDLE_RECONCILE_NANOS),
        other => panic!("expected to sleep, got {other:?}"),
    }
    assert_eq!(state.tasks[0].next_run_at, Some(utc(100)));
}

#[test]
fn idle_engine_sleeps_until_the_earliest_run() {
    let mut state = SchedulerState {
        tasks: vec![
            task("a", hourly(), MisfirePolicy::RunImmediately, Some(utc(130)), true),
            task("b", hourly(), MisfirePolicy::RunImmediately, Some(utc(110)), true),
        ],
        paused: false,
        running: true,
    };
    match plan_pass(&mut state, utc(100)) {
        PassPlan::Sleep { nanos } => assert_eq!(nanos, 10_000_000_000),
        other => panic!("expected to sleep, got {other:?}"),
    }
}

#[test]
fn far_future_runs_sleep_the_idle_period() {
    let mut state = SchedulerState {
        tasks: vec![task("far", hourly(), MisfirePolicy::RunImmediately, Some(utc(100_000)), true)],
        paused: false,
        running: true,
    };
    match plan_pass(&mut state, utc(100)) {
        PassPlan::Sleep { nanos } => assert_eq!(nanos, IDLE_RECONCILE_NANOS),
        other => panic!("expected to sleep, got {other:?}"),
    }
}

#[test]
fn skip_only_pass_reconciles_without_firing_then_sleeps() {
    let mut state = SchedulerState {
        tasks: vec![task(
            "skip",
            Schedule::Every { interval_seconds: 60 },
            MisfirePolicy::Skip,
            Some(utc(60)),
            true,
        )],
        paused: false,
        running: true,
    };
    match plan_pass(&mut state, utc(70)) {
        PassPlan::Dispatch { fire, due, snapshot } => {
            assert!(fire.is_empty());
            assert!(due.is_empty());
            assert_eq!(snapshot.len(), 1);
            assert_eq!(snapshot[0].next_run_at, Some(utc(120)));
        }
        other => panic!("expected a dispatch, got {other:?}"),
    }
    assert_eq!(state.tasks[0].next_run_at, Some(utc(120)));
    assert_eq!(state.tasks[0].last_run_at, None);
    match plan_pass(&mut state, utc(70)) {
        PassPlan::Sleep { nanos } => assert_eq!(nanos, 50_000_000_000),
        other => panic!("expected to sleep, got {other:?}"),
    }
}

#[test]
fn dispatch_reports_the_original_due_time() {
    let mut state = SchedulerState {
        tasks: vec![task(
            "every",
            Schedule::Every { interval_seconds: 60 },
            MisfirePolicy::RunImmediately,
            Some(utc(60)),
            true,
        )],
        paused: false,
        running: true,
    };
    match plan_pass(&mut state, utc(75)) {
        PassPlan::Dispatch { fire, due, .. } => {
            assert_eq!(due, vec![utc(60)]);
            assert_eq!(fire[0].next_run_at, Some(utc(120)));
        }
        other => panic!("expected a dispatch, got {other:?}"),
    }
}

#[test]
fn zero_interval_firing_task_is_disarmed() {
    let mut tasks = vec![task(
        "zero",
        Schedule::Every { interval_seconds: 0 },
        MisfirePolicy::RunImmediately,
        Some(utc(60)),
        true,
    )];
    let report = reconcile(&mut tasks, utc(61));
    assert_eq!(report.fire.len(), 1);
    assert_eq!(report.due, vec![utc(60)]);
    assert_eq!(tasks[0].next_run_at, None);
    assert_eq!(tasks[0].last_run_at, Some(utc(61)));
}

#[test]
fn overflowing_interval_is_disarmed() {
    let mut tasks = vec![task(
        "huge",
        Schedule::Every { interval_seconds: u64::MAX },
        MisfirePolicy::Skip,
        Some(utc(60)),
        true,
    )];
    let report = reconcile(&mut tasks, utc(61));
    assert_eq!(report.skipped.len(), 1);
    assert_eq!(tasks[0].next_run_at, None);
}

#[test]
fn stopped_engine_stops() {
    let mut state = SchedulerState {
        tasks: vec![task("x", hourly(), MisfirePolicy::RunImmediately, Some(utc(1)), true)],
        paused: false,
        running: false,
    };
    assert!(matches!(plan_pass(&mut state, utc(100)), PassPlan::Stop));
}

#[test]
fn system_clock_reads_a_current_time() {
    let now = SystemClock.now();
    assert!(now > utc(1_600_000_000));
}
