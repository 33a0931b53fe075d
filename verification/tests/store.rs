use agent_pulse::error::AppError;
use agent_pulse::model::history::{ExecutionOutcome, HistoryRecord};
use agent_pulse::model::settings::{Settings, Theme};
use agent_pulse::model::task::TaskId;
use agent_pulse::store::json::{
    admit_version, bound_history, choose_loaded, migrate, recover, Admission, JsonStore, StoreDocument,
    SCHEMA_VERSION,
};
use agent_pulse::time::UtcTime;

fn task_id(value: u128) -> TaskId {
    TaskId { value }
}

fn sample_record(n: i64) -> HistoryRecord {
    let now = UtcTime::from_timestamp(n).expect("ts");
    HistoryRecord {
        id: task_id(n as u128),
        task_id: task_id(100_000 + n as u128),
        task_name: "t".into(),
        scheduled_at: now,
        started_at: now,
        finished_at: now,
        target_description: "w".into(),
        outcome: ExecutionOutcome::Success,
    }
}

fn persistence(message: &str) -> AppError {
    AppError::PersistenceFailure(message.to_string())
}

#[test]
fn history_bound_evicts_oldest() {
    let mut history: Vec<HistoryRecord> = (0..1200).map(sample_record).collect();
    bound_history(&mut history, 1000);
    assert_eq!(history.len(), 1000);
    bound_history(&mut history, 1000);
    assert_eq!(history.len(), 1000);
}

#[test]
fn history_bound_keeps_the_newest_in_order() {
    let mut history: Vec<HistoryRecord> = (0..5).map(sample_record).collect();
    let newest: Vec<HistoryRecord> = history[2..].to_vec();
    bound_history(&mut history, 3);
    assert_eq!(history, newest);
    bound_history(&mut history, 10);
    assert_eq!(history, newest);
    bound_history(&mut history, 0);
    assert!(history.is_empty());
}

#[test]
fn default_document_is_current_and_empty() {
    let doc = StoreDocument::default();
    assert_eq!(doc.version, SCHEMA_VERSION);
    assert!(doc.tasks.is_empty());
    assert!(doc.history.is_empty());
    assert_eq!(doc.settings, Settings::default());
}

#[test]
fn saved_document_is_stamped_with_the_schema_version() {
    let mut doc = StoreDocument::default();
    doc.version = 0;
    doc.settings.theme = Theme::Dark;
    doc.history.push(sample_record(1));
    let saved = doc.for_saving();
    assert_eq!(saved.version, SCHEMA_VERSION);
    assert_eq!(saved.settings.theme, Theme::Dark);
    assert_eq!(saved.history, doc.history);
}

#[test]
fn newer_schema_version_refuses_load() {
    assert_eq!(
        admit_version(Some(99), true),
        Admission::Refused(persistence("store schema version 99 is newer than supported version 1"))
    );
}

#[test]
fn older_schema_version_migrates() {
    assert_eq!(admit_version(Some(0), true), Admission::Accepted(SCHEMA_VERSION));
    assert_eq!(admit_version(Some(1), true), Admission::Accepted(SCHEMA_VERSION));
}

#[test]
fn missing_version_refuses_load() {
    assert_eq!(
        admit_version(None, true),
        Admission::Unreadable(persistence("store document has no version field"))
    );
}

#[test]
fn migration_needs_an_object_root() {
    assert_eq!(migrate(0, false), Err(persistence("store root is not an object")));
    assert_eq!(migrate(0, true), Ok(1));
    assert_eq!(migrate(1, false), Ok(1));
}

#[test]
fn corruption_falls_back_to_backup() {
    let mut backup = StoreDocument::default();
    backup.settings.theme = Theme::Dark;
    let loaded = choose_loaded(Err(persistence("parse store.json")), false, Ok(backup), true)
        .expect("load from backup");
    assert_eq!(loaded.settings.theme, Theme::Dark);
}

#[test]
fn main_document_wins_when_readable() {
    let mut main = StoreDocument::default();
    main.settings.history_limit = 7;
    let loaded = choose_loaded(Ok(main), false, Err(persistence("unused")), true).expect("load");
    assert_eq!(loaded.settings.history_limit, 7);
}

#[test]
fn missing_file_yields_defaults() {
    let doc = recover(persistence("read"), false, Err(persistence("read backup")), false).expect("defaults");
    assert!(doc.tasks.is_empty());
    assert_eq!(doc.settings, Settings::default());
}

#[test]
fn both_corrupt_surfaces_persistence_failure() {
    let result = recover(persistence("parse main"), false, Err(persistence("parse backup")), true);
    assert!(matches!(result, Err(AppError::PersistenceFailure(ref m)) if m == "parse main"));
}

#[test]
fn store_paths() {
    let store = JsonStore::new("/data/store.json".to_string());
    assert_eq!(store.path(), "/data/store.json");
    assert_eq!(store.backup_path(), "/data/store.json.bak");
    assert_eq!(store.tmp_path(), "/data/store.json.tmp");
}

#[test]
fn newer_main_file_is_not_replaced_by_backup() {
    let newer = persistence("store schema version 99 is newer than supported version 1");
    let result = recover(newer.clone(), true, Ok(StoreDocument::default()), true);
    assert_eq!(result.map(|d| d.version), Err(newer));
}
