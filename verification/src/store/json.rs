//! The schema-versioned store document.
//!
//! A single document `{ version, tasks, settings, history }` is kept in the
//! application data directory. Writes are atomic (temporary file, then
//! rename) and the previous good copy is kept as `.bak` for corruption
//! recovery. The file handling itself happens outside the library; the
//! rules it follows are here: which schema versions are accepted and how
//! they migrate, which copy a load falls back to, the paths involved and the
//! history bound.

use vstd::prelude::*;

use crate::error::{AppError, AppResult};
use crate::model::history::HistoryRecord;
use crate::model::settings::Settings;
use crate::model::task::{ScheduledTask, TaskView};
use crate::text::{decimal, format_u64, join2, join3, owned};

verus! {

/// Current store schema version. Bump when the document shape changes and
/// add a migration step to [`migrate`].
pub const SCHEMA_VERSION: u32 = 1;

/// The persisted document.
#[derive(Debug)]
pub struct StoreDocument {
    pub version: u32,
    pub tasks: Vec<ScheduledTask>,
    pub settings: Settings,
    pub history: Vec<HistoryRecord>,
}

impl StoreDocument {
    /// The tasks, each by its view.
    pub open spec fn task_views(&self) -> Seq<TaskView> {
        self.tasks.deep_view()
    }
}

impl Default for StoreDocument {
    fn default() -> (r: Self)
        ensures
            r.version == SCHEMA_VERSION,
            r.tasks@.len() == 0,
            r.settings == Settings::defaults(),
            r.history@.len() == 0,
    {
        StoreDocument {
            version: SCHEMA_VERSION,
            tasks: Vec::new(),
            settings: Settings::default(),
            history: Vec::new(),
        }
    }
}

/// A copy of a list of tasks.
pub fn clone_tasks(tasks: &Vec<ScheduledTask>) -> (r: Vec<ScheduledTask>)
    ensures
        r.deep_view() == tasks.deep_view(),
{
    let mut r: Vec<ScheduledTask> = Vec::new();
    let mut i: usize = 0;
    while i < tasks.len()
        invariant
            i <= tasks.len(),
            r.len() == i,
            forall|k: int| 0 <= k < i ==> #[trigger] r@[k]@ == tasks@[k]@,
        decreases tasks.len() - i,
    {
        r.push(tasks[i].clone());
        i = i + 1;
    }
    proof {
        assert(r.deep_view() =~= tasks.deep_view());
    }
    r
}

/// A copy of a list of history records.
pub fn clone_history(history: &Vec<HistoryRecord>) -> (r: Vec<HistoryRecord>)
    ensures
        r@ == history@,
{
    let mut r: Vec<HistoryRecord> = Vec::new();
    let mut i: usize = 0;
    while i < history.len()
        invariant
            i <= history.len(),
            r@ == history@.take(i as int),
        decreases history.len() - i,
    {
        r.push(history[i].clone());
        i = i + 1;
        proof {
            assert(history@.take(i as int) =~= history@.take((i - 1) as int).push(history@[i - 1]));
        }
    }
    proof {
        assert(history@.take(history.len() as int) =~= history@);
    }
    r
}

impl Clone for StoreDocument {
    fn clone(&self) -> (r: Self)
        ensures
            r.version == self.version,
            r.task_views() == self.task_views(),
            r.settings == self.settings,
            r.history@ == self.history@,
    {
        StoreDocument {
            version: self.version,
            tasks: clone_tasks(&self.tasks),
            settings: self.settings,
            history: clone_history(&self.history),
        }
    }
}

impl StoreDocument {
    /// The document as it is written to disk: a copy stamped with the
    /// current schema version.
    pub fn for_saving(&self) -> (r: StoreDocument)
        ensures
            r.version == SCHEMA_VERSION,
            r.task_views() == self.task_views(),
            r.settings == self.settings,
            r.history@ == self.history@,
    {
        let mut doc = self.clone();
        doc.version = SCHEMA_VERSION;
        doc
    }
}

// ---------------------------------------------------------------------------
// Schema versions
// ---------------------------------------------------------------------------

/// The message of a refused newer schema version.
pub open spec fn newer_version_message(version: nat) -> Seq<char> {
    "store schema version "@ + decimal(version) + " is newer than supported version 1"@
}

/// The message of a version with no migration step.
pub open spec fn no_migration_message(version: nat) -> Seq<char> {
    "no migration path from schema version "@ + decimal(version)
}

/// `r` is a persistence failure with the message `m`.
pub open spec fn persistence_failure(r: AppResult<u32>, m: Seq<char>) -> bool {
    r matches Err(AppError::PersistenceFailure(s)) && s@ == m
}

/// What migrating a raw document from `from_version` gives: version 0 was
/// never released and counts as version 1 (defaults fill what is missing),
/// provided the document's root is an object; the current version needs no
/// step; no other version below the current one exists.
pub open spec fn migration_allows(from_version: u32, root_is_object: bool, r: AppResult<u32>) -> bool {
    if from_version >= SCHEMA_VERSION {
        r == Ok::<u32, AppError>(from_version)
    } else if root_is_object {
        r == Ok::<u32, AppError>(SCHEMA_VERSION)
    } else {
        persistence_failure(r, "store root is not an object"@)
    }
}

/// Migrate a raw document's version to [`SCHEMA_VERSION`], step by step.
/// The result is the version the document has afterwards; the caller writes
/// it into the raw document's `version` field before reading the document.
/// A version at or above the current one is left as it is (newer versions
/// are refused before migrating).
pub fn migrate(from_version: u32, root_is_object: bool) -> (r: AppResult<u32>)
    ensures
        migration_allows(from_version, root_is_object, r),
{
    let mut v = from_version;
    while v < SCHEMA_VERSION
        invariant
            v == from_version || (v == SCHEMA_VERSION && root_is_object && from_version
                < SCHEMA_VERSION),
        decreases SCHEMA_VERSION - v,
    {
        if v == 0 {
            if !root_is_object {
                return Err(AppError::PersistenceFailure(owned("store root is not an object")));
            }
            v = 1;
        } else {
            let m = join2("no migration path from schema version ", format_u64(v as u64).as_str());
            return Err(AppError::PersistenceFailure(m));
        }
    }
    Ok(v)
}

/// What reading a raw document's `version` field gives: a missing field and
/// a version newer than this build are errors; any other version is
/// migrated.
pub open spec fn version_admission(version: Option<u64>, root_is_object: bool, r: AppResult<u32>) -> bool {
    match version {
        None => persistence_failure(r, "store document has no version field"@),
        Some(v) => if v > SCHEMA_VERSION {
            persistence_failure(r, newer_version_message(v as nat))
        } else {
            migration_allows(v as u32, root_is_object, r)
        },
    }
}

/// How a raw document fares by its `version` field.
#[derive(Debug, PartialEq, Eq)]
pub enum Admission {
    /// Read as this schema version.
    Accepted(u32),
    /// Written by a newer build, or its migration failed: the data must not
    /// be replaced by anything older.
    Refused(AppError),
    /// Not a store document: it has no version field.
    Unreadable(AppError),
}

impl Admission {
    /// The admission as a result.
    pub open spec fn result(self) -> AppResult<u32> {
        match self {
            Admission::Accepted(v) => Ok(v),
            Admission::Refused(e) => Err(e),
            Admission::Unreadable(e) => Err(e),
        }
    }
}

/// Judge a raw document by its `version` field (a non-negative integer, if
/// present) and migrate it: the result is the schema version the document
/// is read as. A document with a version that cannot be read is refused;
/// one without a version field is unreadable.
pub fn admit_version(version: Option<u64>, root_is_object: bool) -> (r: Admission)
    ensures
        version_admission(version, root_is_object, r.result()),
        r is Refused <==> (version is Some && r.result() is Err),
        r matches Admission::Accepted(v) ==> v == SCHEMA_VERSION,
{
    match version {
        None => Admission::Unreadable(
            AppError::PersistenceFailure(owned("store document has no version field")),
        ),
        Some(v) => {
            if v > SCHEMA_VERSION as u64 {
                let m = join3(
                    "store schema version ",
                    format_u64(v).as_str(),
                    " is newer than supported version 1",
                );
                return Admission::Refused(AppError::PersistenceFailure(m));
            }
            match migrate(v as u32, root_is_object) {
                Ok(m) => Admission::Accepted(m),
                Err(e) => Admission::Refused(e),
            }
        },
    }
}

// ---------------------------------------------------------------------------
// Loading: main file, then backup, then defaults
// ---------------------------------------------------------------------------

/// The recovery ladder once the main file could not be read: a main file
/// that was refused (written by a newer build, or failing its migration)
/// gives its error; otherwise the backup when it reads; otherwise the
/// defaults when the main file does not exist (first run); otherwise the
/// main file's error. Data that exists but cannot be read, and data of a
/// newer build, is never silently replaced.
pub open spec fn recovery_allows(
    main_error: AppError,
    main_refused: bool,
    backup: AppResult<StoreDocument>,
    main_exists: bool,
    r: AppResult<StoreDocument>,
) -> bool {
    if main_refused {
        r == Err::<StoreDocument, AppError>(main_error)
    } else {
        match backup {
        Ok(doc) => r == Ok::<StoreDocument, AppError>(doc),
        Err(_) => if main_exists {
            r == Err::<StoreDocument, AppError>(main_error)
        } else {
            r matches Ok(d) && d.version == SCHEMA_VERSION && d.tasks@.len() == 0 && d.settings
                == Settings::defaults() && d.history@.len() == 0
        },
        }
    }
}

/// Decide what a load gives after the main file failed with `main_error`
/// (`main_refused` when it was refused by its version).
pub fn recover(
    main_error: AppError,
    main_refused: bool,
    backup: AppResult<StoreDocument>,
    main_exists: bool,
) -> (r: AppResult<StoreDocument>)
    ensures
        recovery_allows(main_error, main_refused, backup, main_exists, r),
{
    if main_refused {
        return Err(main_error);
    }
    match backup {
        Ok(doc) => Ok(doc),
        Err(_) => {
            if !main_exists {
                Ok(StoreDocument::default())
            } else {
                Err(main_error)
            }
        },
    }
}

/// Decide what a load gives: the main file's document when it reads,
/// otherwise the recovery ladder.
pub fn choose_loaded(
    main: AppResult<StoreDocument>,
    main_refused: bool,
    backup: AppResult<StoreDocument>,
    main_exists: bool,
) -> (r: AppResult<StoreDocument>)
    ensures
        match main {
            Ok(doc) => r == Ok::<StoreDocument, AppError>(doc),
            Err(e) => recovery_allows(e, main_refused, backup, main_exists, r),
        },
{
    match main {
        Ok(doc) => Ok(doc),
        Err(e) => recover(e, main_refused, backup, main_exists),
    }
}

// ---------------------------------------------------------------------------
// Paths
// ---------------------------------------------------------------------------

/// JSON file store with atomic writes and a backup copy.
#[derive(Debug)]
pub struct JsonStore {
    path: String,
}

impl View for JsonStore {
    type V = Seq<char>;

    /// The path of the main document file.
    closed spec fn view(&self) -> Seq<char> {
        self.path@
    }
}

impl JsonStore {
    /// Create a store rooted at `path` (the main document file).
    pub fn new(path: String) -> (r: Self)
        ensures
            r@ == path@,
    {
        JsonStore { path }
    }

    /// The main document file.
    pub fn path(&self) -> (r: &str)
        ensures
            r@ == self@,
    {
        self.path.as_str()
    }

    /// The backup copy: the main path with `.bak` appended.
    pub fn backup_path(&self) -> (r: String)
        ensures
            r@ == self@ + ".bak"@,
    {
        join2(self.path.as_str(), ".bak")
    }

    /// The temporary file a save writes before renaming: the main path with
    /// `.tmp` appended.
    pub fn tmp_path(&self) -> (r: String)
        ensures
            r@ == self@ + ".tmp"@,
    {
        join2(self.path.as_str(), ".tmp")
    }
}

// ---------------------------------------------------------------------------
// History bound
// ---------------------------------------------------------------------------

/// The newest `limit` records of `history` (all of them when there are no
/// more than `limit`).
pub open spec fn bounded(history: Seq<HistoryRecord>, limit: nat) -> Seq<HistoryRecord> {
    if history.len() > limit {
        history.subrange(history.len() - limit, history.len() as int)
    } else {
        history
    }
}

/// Enforce the history bound: records are appended chronologically, so the
/// oldest are dropped until at most `limit` remain.
pub fn bound_history(history: &mut Vec<HistoryRecord>, limit: u32)
    ensures
        final(history)@ == bounded(old(history)@, limit as nat),
{
    let limit = limit as usize;
    if history.len() > limit {
        let excess = history.len() - limit;
        let kept = history.split_off(excess);
        *history = kept;
    }
}

/// Bounding the history a second time with the same limit changes nothing.
pub proof fn bounding_is_idempotent(history: Seq<HistoryRecord>, limit: nat)
    ensures
        bounded(bounded(history, limit), limit) == bounded(history, limit),
        bounded(history, limit).len() <= limit,
{
}

/// Bounding keeps the newest records in their order: the bounded history is
/// a suffix of the history, and it is all of it when the history fits.
pub proof fn bounding_keeps_the_newest(history: Seq<HistoryRecord>, limit: nat)
    ensures
        ({
            let kept = bounded(history, limit);
            &&& kept.len() == if history.len() > limit { limit } else { history.len() }
            &&& forall|i: int|
                0 <= i < kept.len() ==> #[trigger] kept[i] == history[history.len() - kept.len() + i]
        }),
{
}

} // verus!
