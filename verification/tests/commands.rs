use agent_pulse::commands::{
    clear_history, create_quick_task, create_task, delete_task, describe_schedule, find_task,
    get_history, record_execution, run_still_current, set_task_enabled, update_settings,
    update_task,
};
use agent_pulse::error::AppError;
use agent_pulse::model::action::Action;
use agent_pulse::model::history::{ExecutionOutcome, HistoryRecord};
use agent_pulse::model::key::Key;
use agent_pulse::model::schedule::{MisfirePolicy, Schedule};
use agent_pulse::model::settings::{Settings, Theme};
use agent_pulse::model::target::WindowTarget;
use agent_pulse::model::task::TaskId;
use agent_pulse::store::json::StoreDocument;
use agent_pulse::time::UtcTime;

fn task_id(value: u128) -> TaskId {
    TaskId { value }
}

fn utc(secs: i64) -> UtcTime {
    UtcTime::from_timestamp(secs).expect("ts")
}

fn actions() -> Vec<Action> {
    vec![
        Action::FocusTarget,
        Action::TypeText { text: "continue".into() },
        Action::PressKey { key: Key::Enter, count: 1, interval_ms: 0 },
    ]
}

fn every(seconds: u64) -> Schedule {
    Schedule::Every { interval_seconds: seconds }
}

fn record(owner: TaskId, started: i64) -> HistoryRecord {
    HistoryRecord {
        id: task_id(1_000_000 + started as u128),
        task_id: owner,
        task_name: "t".into(),
        scheduled_at: utc(started),
        started_at: utc(started),
        finished_at: utc(started + 1),
        target_description: "w".into(),
        outcome: ExecutionOutcome::Success,
    }
}

#[test]
fn created_task_is_trimmed_and_stored() {
    let mut doc = StoreDocument::default();
    let task = create_task(
        &mut doc,
        "  Nightly  ",
        WindowTarget::default(),
        every(60),
        actions(),
        MisfirePolicy::Skip,
        utc(1_000),
    )
    .expect("create");
    assert_eq!(task.name, "Nightly");
    assert_eq!(task.next_run_at, Some(utc(1_060)));
    assert_eq!(task.misfire_policy, MisfirePolicy::Skip);
    assert_eq!(doc.tasks.len(), 1);
    assert_eq!(doc.tasks[0], task);
}

#[test]
fn blank_name_is_refused() {
    let mut doc = StoreDocument::default();
    let result = create_task(
        &mut doc,
        "   ",
        WindowTarget::default(),
        every(60),
        actions(),
        MisfirePolicy::default(),
        utc(1_000),
    );
    assert_eq!(result, Err(AppError::InvalidSchedule("task name must not be empty".into())));
    assert!(doc.tasks.is_empty());
}

#[test]
fn invalid_schedule_leaves_document_unchanged() {
    let mut doc = StoreDocument::default();
    let result = create_task(
        &mut doc,
        "bad",
        WindowTarget::default(),
        every(0),
        actions(),
        MisfirePolicy::default(),
        utc(1_000),
    );
    assert!(matches!(result, Err(AppError::InvalidSchedule(_))));
    assert!(doc.tasks.is_empty());
}

#[test]
fn schedule_summaries() {
    assert_eq!(
        describe_schedule(&Schedule::After { hours: 1, minutes: 5, seconds: 0 }),
        "Automation — after 1h 05m 00s"
    );
    assert_eq!(
        describe_schedule(&Schedule::At {
            year: 2026,
            month: 9,
            day: 8,
            hour: 1,
            minute: 26,
            second: 5,
            timezone: "Asia/Shanghai".into(),
        }),
        "Automation — at 2026-09-08 01:26:05 (Asia/Shanghai)"
    );
    assert_eq!(
        describe_schedule(&Schedule::At {
            year: 7,
            month: 1,
            day: 2,
            hour: 3,
            minute: 4,
            second: 5,
            timezone: String::new(),
        }),
        "Automation — at 0007-01-02 03:04:05 (local)"
    );
    assert_eq!(describe_schedule(&every(300)), "Automation — every 300s");
}

#[test]
fn quick_task_is_named_after_its_schedule_when_unnamed() {
    let mut doc = StoreDocument::default();
    let task = create_quick_task(&mut doc, None, WindowTarget::default(), every(300), actions(), utc(0))
        .expect("create");
    assert_eq!(task.name, "Automation — every 300s");
    assert_eq!(task.misfire_policy, MisfirePolicy::RunImmediately);
    let blank = create_quick_task(
        &mut doc,
        Some("  ".into()),
        WindowTarget::default(),
        every(60),
        actions(),
        utc(0),
    )
    .expect("create");
    assert_eq!(blank.name, "Automation — every 60s");
    let named = create_quick_task(
        &mut doc,
        Some(" Mine ".into()),
        WindowTarget::default(),
        every(60),
        actions(),
        utc(0),
    )
    .expect("create");
    assert_eq!(named.name, "Mine");
    assert_eq!(doc.tasks.len(), 3);
}

#[test]
fn deleting_removes_only_that_task() {
    let mut doc = StoreDocument::default();
    let a = create_task(&mut doc, "a", WindowTarget::default(), every(60), actions(), MisfirePolicy::default(), utc(0))
        .expect("a");
    let b = create_task(&mut doc, "b", WindowTarget::default(), every(60), actions(), MisfirePolicy::default(), utc(0))
        .expect("b");
    assert_eq!(delete_task(&mut doc, a.id), Ok(()));
    assert_eq!(doc.tasks.len(), 1);
    assert_eq!(doc.tasks[0].id, b.id);
    assert_eq!(delete_task(&mut doc, a.id), Err(AppError::TaskNotFound(a.id)));
    assert_eq!(find_task(&doc.tasks, a.id), None);
    assert_eq!(find_task(&doc.tasks, b.id), Some(0));
}

#[test]
fn disabling_clears_next_run_and_enabling_rearms() {
    let mut doc = StoreDocument::default();
    let t = create_task(&mut doc, "t", WindowTarget::default(), every(60), actions(), MisfirePolicy::default(), utc(0))
        .expect("t");
    let off = set_task_enabled(&mut doc, t.id, false, utc(10)).expect("disable");
    assert!(!off.enabled);
    assert_eq!(off.next_run_at, None);
    assert_eq!(off.updated_at, utc(10));
    let on = set_task_enabled(&mut doc, t.id, true, utc(20)).expect("enable");
    assert!(on.enabled);
    assert_eq!(on.next_run_at, Some(utc(80)));
    assert_eq!(doc.tasks[0], on);
    let again = set_task_enabled(&mut doc, t.id, true, utc(30)).expect("enable again");
    assert_eq!(again.next_run_at, Some(utc(80)));
    assert_eq!(again.updated_at, utc(30));
}

#[test]
fn enabling_an_unknown_task_fails() {
    let mut doc = StoreDocument::default();
    let id = task_id(424_242);
    assert_eq!(set_task_enabled(&mut doc, id, true, utc(0)), Err(AppError::TaskNotFound(id)));
}

#[test]
fn execution_completion_preserves_newer_edits_and_consumed_deadline() {
    let mut doc = StoreDocument::default();
    let now = utc(1_000);
    let mut task = agent_pulse::model::task::ScheduledTask::new(
        "original".to_string(),
        WindowTarget::default(),
        every(5),
        vec![Action::FocusTarget],
        MisfirePolicy::default(),
        now,
    )
    .expect("task");
    let record = agent_pulse::executor::action_executor::history_record(
        &task,
        now,
        now,
        "test",
        ExecutionOutcome::Success,
    );
    task.name = "edited while running".into();
    task.next_run_at = None;
    doc.tasks.push(task.clone());
    record_execution(&mut doc, record);
    assert_eq!(doc.tasks[0].name, "edited while running");
    assert_eq!(doc.tasks[0].next_run_at, None);
}

#[test]
fn last_run_only_moves_forward() {
    let mut doc = StoreDocument::default();
    let t = create_task(&mut doc, "t", WindowTarget::default(), every(60), actions(), MisfirePolicy::default(), utc(0))
        .expect("t");
    record_execution(&mut doc, record(t.id, 100));
    assert_eq!(doc.tasks[0].last_run_at, Some(utc(100)));
    record_execution(&mut doc, record(t.id, 50));
    assert_eq!(doc.tasks[0].last_run_at, Some(utc(100)));
    assert_eq!(doc.history.len(), 2);
}

#[test]
fn record_of_a_deleted_task_only_adds_history() {
    let mut doc = StoreDocument::default();
    doc.settings.history_limit = 2;
    for n in 0..3 {
        record_execution(&mut doc, record(task_id(7_000 + n as u128), n));
    }
    assert_eq!(doc.history.len(), 2);
    assert_eq!(doc.history[0].started_at, utc(1));
    assert!(doc.tasks.is_empty());
}

#[test]
fn history_is_newest_first_and_clears() {
    let mut doc = StoreDocument::default();
    for n in 0..3 {
        doc.history.push(record(task_id(7_000 + n as u128), n));
    }
    let listed = get_history(&doc);
    let started: Vec<UtcTime> = listed.iter().map(|r| r.started_at).collect();
    assert_eq!(started, vec![utc(2), utc(1), utc(0)]);
    clear_history(&mut doc);
    assert!(doc.history.is_empty());
}

#[test]
fn settings_update_cuts_history_to_the_new_limit() {
    let mut doc = StoreDocument::default();
    for n in 0..5 {
        doc.history.push(record(task_id(7_000 + n as u128), n));
    }
    let settings = Settings { theme: Theme::Dark, history_limit: 2, ..Default::default() };
    update_settings(&mut doc, settings);
    assert_eq!(doc.settings.theme, Theme::Dark);
    assert_eq!(doc.history.len(), 2);
    assert_eq!(doc.history[1].started_at, utc(4));
}

#[test]
fn a_run_stays_current_only_while_its_task_is_unchanged() {
    let mut doc = StoreDocument::default();
    let t = create_task(&mut doc, "t", WindowTarget::default(), every(60), actions(), MisfirePolicy::default(), utc(0))
        .expect("t");
    assert!(run_still_current(&doc, false, t.id, t.updated_at));
    assert!(!run_still_current(&doc, true, t.id, t.updated_at));
    assert!(!run_still_current(&doc, false, t.id, utc(5)));
    set_task_enabled(&mut doc, t.id, false, utc(10)).expect("disable");
    assert!(!run_still_current(&doc, false, t.id, utc(10)));
    let on = set_task_enabled(&mut doc, t.id, true, utc(20)).expect("enable");
    assert!(run_still_current(&doc, false, t.id, on.updated_at));
    delete_task(&mut doc, t.id).expect("delete");
    assert!(!run_still_current(&doc, false, t.id, on.updated_at));
}

#[test]
fn past_deadline_is_refused_on_creation() {
    let mut doc = StoreDocument::default();
    let at = Schedule::At {
        year: 2020,
        month: 1,
        day: 1,
        hour: 0,
        minute: 0,
        second: 0,
        timezone: "utc".into(),
    };
    let result = create_task(&mut doc, "late", WindowTarget::default(), at, actions(), MisfirePolicy::default(), utc(1_780_000_000));
    assert_eq!(result, Err(AppError::InvalidSchedule("absolute deadline is in the past".into())));
    assert!(doc.tasks.is_empty());
}

#[test]
fn editing_the_name_keeps_the_next_run() {
    let mut doc = StoreDocument::default();
    let t = create_task(&mut doc, "t", WindowTarget::default(), every(60), actions(), MisfirePolicy::default(), utc(0))
        .expect("t");
    let mut edit = t.clone();
    edit.name = "renamed".into();
    let updated = update_task(&mut doc, edit, utc(30)).expect("edit");
    assert_eq!(updated.name, "renamed");
    assert_eq!(updated.next_run_at, Some(utc(60)));
    assert_eq!(updated.updated_at, utc(30));
    assert_eq!(updated.created_at, utc(0));
    assert_eq!(doc.tasks[0], updated);
}

#[test]
fn editing_a_completed_task_does_not_rearm_it() {
    let mut doc = StoreDocument::default();
    let once = Schedule::After { hours: 0, minutes: 1, seconds: 0 };
    let t = create_task(&mut doc, "once", WindowTarget::default(), once, actions(), MisfirePolicy::default(), utc(0))
        .expect("t");
    doc.tasks[0].next_run_at = None;
    doc.tasks[0].last_run_at = Some(utc(60));
    let mut edit = t.clone();
    edit.name = "once, renamed".into();
    let updated = update_task(&mut doc, edit, utc(100)).expect("edit");
    assert_eq!(updated.next_run_at, None);
    assert_eq!(updated.last_run_at, Some(utc(60)));
}

#[test]
fn changing_the_schedule_rearms_from_now() {
    let mut doc = StoreDocument::default();
    let t = create_task(&mut doc, "t", WindowTarget::default(), every(60), actions(), MisfirePolicy::default(), utc(0))
        .expect("t");
    let mut edit = t.clone();
    edit.schedule = every(600);
    let updated = update_task(&mut doc, edit, utc(30)).expect("edit");
    assert_eq!(updated.next_run_at, Some(utc(630)));
}

#[test]
fn disabling_by_edit_clears_the_next_run() {
    let mut doc = StoreDocument::default();
    let t = create_task(&mut doc, "t", WindowTarget::default(), every(60), actions(), MisfirePolicy::default(), utc(0))
        .expect("t");
    let mut edit = t.clone();
    edit.enabled = false;
    let updated = update_task(&mut doc, edit, utc(30)).expect("edit");
    assert!(!updated.enabled);
    assert_eq!(updated.next_run_at, None);
}

#[test]
fn invalid_edits_are_refused() {
    let mut doc = StoreDocument::default();
    let t = create_task(&mut doc, "t", WindowTarget::default(), every(60), actions(), MisfirePolicy::default(), utc(0))
        .expect("t");
    let mut bad_text = t.clone();
    bad_text.actions = vec![Action::TypeText { text: "a\tb".into() }];
    assert!(matches!(update_task(&mut doc, bad_text, utc(1)), Err(AppError::InvalidAction(_))));
    let mut bad_schedule = t.clone();
    bad_schedule.schedule = every(0);
    assert!(matches!(update_task(&mut doc, bad_schedule, utc(1)), Err(AppError::InvalidSchedule(_))));
    let mut unknown = t.clone();
    unknown.id = task_id(99);
    assert_eq!(update_task(&mut doc, unknown, utc(1)), Err(AppError::TaskNotFound(task_id(99))));
    assert_eq!(doc.tasks[0], t);
}
