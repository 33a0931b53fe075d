//! The operations the user interface invokes on the store document.
//!
//! Each operation works on the in-memory document; the caller commits the
//! changed document to disk before publishing it (and discards it when the
//! operation fails), so a failed operation leaves the document unchanged.

use vstd::prelude::*;

use crate::error::{AppError, AppResult};
use crate::model::action::{actions_valid, control_text_message, validate_actions, Action, ActionView};
use crate::model::history::HistoryRecord;
use crate::model::schedule::{MisfirePolicy, Schedule};
use crate::model::settings::Settings;
use crate::model::target::WindowTarget;
use crate::model::task::{ScheduledTask, TaskId, TaskView};
use crate::store::json::{bound_history, bounded, StoreDocument};
use crate::text::{
    decimal, format_i64_padded, format_u64, format_u64_padded, owned, padded_decimal, spec_trim, str_eq,
    trim,
};
use crate::time::UtcTime;

verus! {

/// The task at `i` is the first with identifier `id`.
pub open spec fn is_first(tasks: Seq<TaskView>, id: TaskId, i: int) -> bool {
    &&& 0 <= i < tasks.len()
    &&& tasks[i].id == id
    &&& forall|j: int| 0 <= j < i ==> tasks[j].id != id
}

/// Some task has identifier `id`.
pub open spec fn has_task(tasks: Seq<TaskView>, id: TaskId) -> bool {
    exists|i: int| 0 <= i < tasks.len() && tasks[i].id == id
}

/// The position of the first task with identifier `id` (meaningful when
/// `has_task` holds).
pub open spec fn task_index(tasks: Seq<TaskView>, id: TaskId) -> int {
    choose|i: int| is_first(tasks, id, i)
}

/// The tasks whose identifier is not `id`, in order.
pub open spec fn without_task(tasks: Seq<TaskView>, id: TaskId) -> Seq<TaskView> {
    tasks.filter(|t: TaskView| t.id != id)
}

proof fn lemma_without_task_step(tasks: Seq<TaskView>, id: TaskId, i: int)
    requires
        0 <= i < tasks.len(),
    ensures
        without_task(tasks.take(i + 1), id) == if tasks[i].id != id {
            without_task(tasks.take(i), id).push(tasks[i])
        } else {
            without_task(tasks.take(i), id)
        },
{
    reveal(Seq::filter);
    assert(tasks.take(i + 1).drop_last() =~= tasks.take(i));
    assert(tasks.take(i + 1).last() == tasks[i]);
}

/// Only the first task with identifier `id` is ever the one found.
pub proof fn lemma_first_is_unique(tasks: Seq<TaskView>, id: TaskId, i: int)
    requires
        is_first(tasks, id, i),
    ensures
        has_task(tasks, id),
        task_index(tasks, id) == i,
{
    let k = task_index(tasks, id);
    assert(is_first(tasks, id, k));
    if k < i {
        assert(tasks[k].id != id);
    }
    if i < k {
        assert(tasks[i].id != id);
    }
}

/// The first position of a task with identifier `id`, if any.
pub fn find_task(tasks: &Vec<ScheduledTask>, id: TaskId) -> (r: Option<usize>)
    ensures
        match r {
            Some(i) => is_first(tasks.deep_view(), id, i as int) && task_index(
                tasks.deep_view(),
                id,
            ) == i,
            None => !has_task(tasks.deep_view(), id),
        },
{
    let mut i: usize = 0;
    while i < tasks.len()
        invariant
            i <= tasks.len(),
            forall|j: int| 0 <= j < i ==> tasks.deep_view()[j].id != id,
        decreases tasks.len() - i,
    {
        proof {
            assert(tasks.deep_view()[i as int] == tasks@[i as int]@);
        }
        if tasks[i].id == id {
            proof {
                lemma_first_is_unique(tasks.deep_view(), id, i as int);
            }
            return Some(i);
        }
        i = i + 1;
    }
    None
}

/// Delete the task with identifier `id` (every task with it): an error when
/// there is none.
pub fn delete_task(doc: &mut StoreDocument, id: TaskId) -> (r: AppResult<()>)
    ensures
        r is Ok <==> has_task(old(doc).task_views(), id),
        r is Ok ==> final(doc).task_views() == without_task(old(doc).task_views(), id),
        r matches Err(e) ==> e == AppError::TaskNotFound(id) && final(doc).task_views() == old(
            doc,
        ).task_views(),
        final(doc).version == old(doc).version,
        final(doc).settings == old(doc).settings,
        final(doc).history@ == old(doc).history@,
{
    let ghost before = doc.task_views();
    let mut kept: Vec<ScheduledTask> = Vec::new();
    let mut found = false;
    let mut i: usize = 0;
    while i < doc.tasks.len()
        invariant
            i <= doc.tasks.len(),
            doc.task_views() == before,
            kept.deep_view() == without_task(before.take(i as int), id),
            found <==> exists|j: int| 0 <= j < i && before[j].id == id,
        decreases doc.tasks.len() - i,
    {
        let t = doc.tasks[i].clone();
        proof {
            assert(before[i as int] == doc.tasks@[i as int]@);
            lemma_without_task_step(before, id, i as int);
        }
        if t.id == id {
            found = true;
        } else {
            kept.push(t);
            proof {
                assert(kept.deep_view() =~= without_task(before.take(i as int), id).push(
                    before[i as int],
                ));
            }
        }
        i = i + 1;
    }
    proof {
        assert(before.take(doc.tasks.len() as int) =~= before);
    }
    if !found {
        return Err(AppError::TaskNotFound(id));
    }
    doc.tasks = kept;
    Ok(())
}

/// The view of a task result.
pub open spec fn result_view(r: AppResult<ScheduledTask>) -> AppResult<TaskView> {
    match r {
        Ok(t) => Ok(t@),
        Err(e) => Err(e),
    }
}

/// What enabling or disabling a task makes of it. Enabling a task that has
/// no next run re-arms its schedule from `now` (which may fail); disabling
/// clears the next run; either way `updated_at` becomes `now`.
pub open spec fn enabling_allows(
    before: TaskView,
    enabled: bool,
    now: UtcTime,
    r: AppResult<TaskView>,
) -> bool {
    if enabled && before.next_run_at is None {
        match r {
            Ok(t) => t.next_run_at matches Some(n) && before.schedule.first_run_allows(now, Ok(n))
                && t == (TaskView { enabled: true, next_run_at: t.next_run_at, updated_at: now, ..before }),
            Err(e) => before.schedule.first_run_allows(now, Err(e)),
        }
    } else {
        r == Ok::<TaskView, AppError>(
            TaskView {
                enabled,
                next_run_at: if enabled {
                    before.next_run_at
                } else {
                    None
                },
                updated_at: now,
                ..before
            },
        )
    }
}

/// Enable or disable the task with identifier `id`; the updated task is
/// returned. An error when there is no such task, or when re-arming fails.
pub fn set_task_enabled(doc: &mut StoreDocument, id: TaskId, enabled: bool, now: UtcTime) -> (r:
    AppResult<ScheduledTask>)
    requires
        now.valid(),
    ensures
        !has_task(old(doc).task_views(), id) ==> r == Err::<ScheduledTask, AppError>(
            AppError::TaskNotFound(id),
        ),
        has_task(old(doc).task_views(), id) ==> enabling_allows(
            old(doc).task_views()[task_index(old(doc).task_views(), id)],
            enabled,
            now,
            result_view(r),
        ),
        r matches Ok(t) ==> final(doc).task_views() == old(doc).task_views().update(
            task_index(old(doc).task_views(), id),
            t@,
        ),
        r is Err ==> final(doc).task_views() == old(doc).task_views(),
        final(doc).version == old(doc).version,
        final(doc).settings == old(doc).settings,
        final(doc).history@ == old(doc).history@,
{
    let i = match find_task(&doc.tasks, id) {
        Some(i) => i,
        None => {
            return Err(AppError::TaskNotFound(id));
        },
    };
    let mut task = doc.tasks[i].clone();
    proof {
        assert(doc.task_views()[i as int] == doc.tasks@[i as int]@);
    }
    task.enabled = enabled;
    if enabled && task.next_run_at.is_none() {
        match task.rearm(now) {
            Ok(_) => {},
            Err(e) => {
                return Err(e);
            },
        }
    }
    if !enabled {
        task.next_run_at = None;
    }
    task.updated_at = now;
    let result = task.clone();
    let ghost before = doc.task_views();
    doc.tasks.set(i, task);
    proof {
        assert(doc.task_views() =~= before.update(i as int, result@));
    }
    Ok(result)
}

// ---------------------------------------------------------------------------
// Editing tasks
// ---------------------------------------------------------------------------

/// Two schedules describe the same occurrences: same kind, same fields,
/// same zone name.
pub open spec fn same_schedule(a: Schedule, b: Schedule) -> bool {
    match a {
        Schedule::After { hours, minutes, seconds } => b matches Schedule::After {
            hours: h,
            minutes: m,
            seconds: s,
        } && h == hours && m == minutes && s == seconds,
        Schedule::At { year, month, day, hour, minute, second, timezone } => b matches Schedule::At {
            year: y,
            month: mo,
            day: d,
            hour: h,
            minute: mi,
            second: s,
            timezone: tz,
        } && y == year && mo == month && d == day && h == hour && mi == minute && s == second
            && tz@ == timezone@,
        Schedule::Every { interval_seconds } => b matches Schedule::Every { interval_seconds: i }
            && i == interval_seconds,
    }
}

fn schedules_match(a: &Schedule, b: &Schedule) -> (r: bool)
    ensures
        r == same_schedule(*a, *b),
{
    match (a, b) {
        (
            Schedule::After { hours, minutes, seconds },
            Schedule::After { hours: h, minutes: m, seconds: sec },
        ) => *hours == *h && *minutes == *m && *seconds == *sec,
        (
            Schedule::At { year, month, day, hour, minute, second, timezone },
            Schedule::At { year: y, month: mo, day: d, hour: h, minute: mi, second: sec, timezone: tz },
        ) => *year == *y && *month == *mo && *day == *d && *hour == *h && *minute == *mi && *second
            == *sec && str_eq(timezone.as_str(), tz.as_str()),
        (Schedule::Every { interval_seconds }, Schedule::Every { interval_seconds: i }) =>
            *interval_seconds == *i,
        _ => false,
    }
}

/// An edit re-arms the task when it leaves the task enabled and either
/// enables it or changes its schedule. Any other edit keeps the next run as
/// it was, so editing a completed task does not bring it back.
pub open spec fn edit_rearms(existing: TaskView, edit: TaskView) -> bool {
    edit.enabled && (!existing.enabled || !same_schedule(existing.schedule, edit.schedule))
}

/// The task `existing` after the edit `edit` at `now`: the edited fields
/// (name, enabled, target, schedule, actions, misfire policy) are taken from
/// the edit; identity, creation time and last run stay; the edit time is
/// `now` and the next run is `next`.
pub open spec fn edited(existing: TaskView, edit: TaskView, now: UtcTime, next: Option<UtcTime>) -> TaskView {
    TaskView {
        name: edit.name,
        enabled: edit.enabled,
        target: edit.target,
        schedule: edit.schedule,
        actions: edit.actions,
        misfire_policy: edit.misfire_policy,
        updated_at: now,
        next_run_at: next,
        ..existing
    }
}

/// What applying an edit may give: a disabled task has no next run; an edit
/// that re-arms computes the first run of the new schedule from `now`
/// (which may fail); any other edit keeps the next run.
pub open spec fn edit_allows(existing: TaskView, edit: TaskView, now: UtcTime, r: AppResult<TaskView>) -> bool {
    if !edit.enabled {
        r == Ok::<TaskView, AppError>(edited(existing, edit, now, None))
    } else if edit_rearms(existing, edit) {
        match r {
            Ok(t) => t.next_run_at matches Some(n) && edit.schedule.first_run_allows(now, Ok(n)) && t
                == edited(existing, edit, now, t.next_run_at),
            Err(e) => edit.schedule.first_run_allows(now, Err(e)),
        }
    } else {
        r == Ok::<TaskView, AppError>(edited(existing, edit, now, existing.next_run_at))
    }
}

/// Replace the editable fields of the stored task with the identifier of
/// `task` by those of `task`; the updated task is returned. The edit is
/// checked first: actions with control characters in their text, then the
/// schedule; then the task must exist.
pub fn update_task(doc: &mut StoreDocument, task: ScheduledTask, now: UtcTime) -> (r: AppResult<
    ScheduledTask,
>)
    requires
        now.valid(),
    ensures
        !actions_valid(task.actions.deep_view()) ==> (r matches Err(AppError::InvalidAction(m)) && m@
            == control_text_message()),
        actions_valid(task.actions.deep_view()) ==> ({
            ||| r matches Err(e) && task.schedule.validation_allows(Err(e))
            ||| task.schedule.validation_allows(Ok(())) && if has_task(old(doc).task_views(), task.id) {
                edit_allows(
                    old(doc).task_views()[task_index(old(doc).task_views(), task.id)],
                    task@,
                    now,
                    result_view(r),
                )
            } else {
                r == Err::<ScheduledTask, AppError>(AppError::TaskNotFound(task.id))
            }
        }),
        r matches Ok(t) ==> final(doc).task_views() == old(doc).task_views().update(
            task_index(old(doc).task_views(), task.id),
            t@,
        ),
        r is Err ==> final(doc).task_views() == old(doc).task_views(),
        final(doc).version == old(doc).version,
        final(doc).settings == old(doc).settings,
        final(doc).history@ == old(doc).history@,
{
    if let Err(e) = validate_actions(&task.actions) {
        return Err(e);
    }
    if let Err(e) = task.schedule.validate() {
        return Err(e);
    }
    let i = match find_task(&doc.tasks, task.id) {
        Some(i) => i,
        None => {
            return Err(AppError::TaskNotFound(task.id));
        },
    };
    let existing = doc.tasks[i].clone();
    proof {
        assert(doc.task_views()[i as int] == doc.tasks@[i as int]@);
    }
    let rearm = task.enabled && (!existing.enabled || !schedules_match(
        &existing.schedule,
        &task.schedule,
    ));
    let next = if !task.enabled {
        None
    } else if rearm {
        match task.schedule.first_run_at(now) {
            Ok(n) => Some(n),
            Err(e) => {
                return Err(e);
            },
        }
    } else {
        existing.next_run_at
    };
    let updated = ScheduledTask {
        id: existing.id,
        name: task.name,
        enabled: task.enabled,
        target: task.target,
        schedule: task.schedule,
        actions: task.actions,
        misfire_policy: task.misfire_policy,
        created_at: existing.created_at,
        updated_at: now,
        last_run_at: existing.last_run_at,
        next_run_at: next,
    };
    let result = updated.clone();
    let ghost before = doc.task_views();
    doc.tasks.set(i, updated);
    proof {
        assert(doc.task_views() =~= before.update(i as int, result@));
    }
    Ok(result)
}

/// An edit of an enabled task that leaves it enabled re-arms it exactly when
/// the schedule changes in some field (kind, any date or time component, the
/// interval or the zone name); the re-armed task then takes the first run of
/// the edited schedule from the time of the edit.
pub proof fn edit_rearms_iff_schedule_changes(
    existing: TaskView,
    edit: TaskView,
    now: UtcTime,
    r: AppResult<TaskView>,
)
    requires
        existing.enabled,
        edit.enabled,
        edit_allows(existing, edit, now, r),
    ensures
        edit_rearms(existing, edit) <==> existing.schedule@ != edit.schedule@,
        existing.schedule@ != edit.schedule@ ==> (r matches Ok(t) ==> (t.next_run_at matches Some(n)
            && edit.schedule.first_run_allows(now, Ok(n)))),
        existing.schedule@ == edit.schedule@ ==> (r matches Ok(t) && t.next_run_at
            == existing.next_run_at),
{
}

/// Editing a completed task (enabled, with no next run) without changing its
/// schedule does not bring it back: it still has no next run.
pub proof fn editing_a_completed_task_keeps_it_done(
    existing: TaskView,
    edit: TaskView,
    now: UtcTime,
    r: AppResult<TaskView>,
)
    requires
        existing.enabled,
        existing.next_run_at is None,
        same_schedule(existing.schedule, edit.schedule),
        edit_allows(existing, edit, now, r),
    ensures
        r matches Ok(t) && t.next_run_at is None,
{
}

/// A task after a run that started at `started`: its last run is the later
/// of the recorded one and `started`.
pub open spec fn after_run(before: TaskView, started: UtcTime) -> TaskView {
    TaskView {
        last_run_at: Some(
            match before.last_run_at {
                Some(last) => if last.nanos >= started.nanos {
                    last
                } else {
                    started
                },
                None => started,
            },
        ),
        ..before
    }
}

/// Record a finished run: the record is appended to the history (oldest
/// records evicted beyond the limit of the settings), and the task it
/// belongs to, when it still exists, has its last run moved forward to the
/// record's start. Nothing else of the task changes, so an edit made while
/// the run was going on survives.
pub fn record_execution(doc: &mut StoreDocument, record: HistoryRecord)
    ensures
        final(doc).task_views() == if has_task(old(doc).task_views(), record.task_id) {
            old(doc).task_views().update(
                task_index(old(doc).task_views(), record.task_id),
                after_run(
                    old(doc).task_views()[task_index(old(doc).task_views(), record.task_id)],
                    record.started_at,
                ),
            )
        } else {
            old(doc).task_views()
        },
        final(doc).history@ == bounded(
            old(doc).history@.push(record),
            old(doc).settings.history_limit as nat,
        ),
        final(doc).version == old(doc).version,
        final(doc).settings == old(doc).settings,
{
    match find_task(&doc.tasks, record.task_id) {
        Some(i) => {
            let mut task = doc.tasks[i].clone();
            proof {
                assert(doc.task_views()[i as int] == doc.tasks@[i as int]@);
            }
            let last = match task.last_run_at {
                Some(l) => l.latest(record.started_at),
                None => record.started_at,
            };
            task.last_run_at = Some(last);
            let ghost before = doc.task_views();
            let ghost updated = task@;
            doc.tasks.set(i, task);
            proof {
                assert(doc.task_views() =~= before.update(i as int, updated));
            }
        },
        None => {},
    }
    let limit = doc.settings.history_limit;
    doc.history.push(record);
    bound_history(&mut doc.history, limit);
}

/// A run of the task `id` started at its version `version` is still wanted:
/// the scheduler is not paused and the task still exists, enabled, with the
/// same `updated_at` (it was neither deleted, disabled nor edited).
pub fn run_still_current(doc: &StoreDocument, paused: bool, id: TaskId, version: UtcTime) -> (r: bool)
    ensures
        r == (!paused && exists|i: int|
            0 <= i < doc.tasks@.len() && (#[trigger] doc.tasks@[i]).id == id && doc.tasks@[i].enabled
                && doc.tasks@[i].updated_at == version),
{
    if paused {
        return false;
    }
    let mut i: usize = 0;
    while i < doc.tasks.len()
        invariant
            !paused,
            i <= doc.tasks@.len(),
            forall|k: int|
                0 <= k < i ==> !((#[trigger] doc.tasks@[k]).id == id && doc.tasks@[k].enabled
                    && doc.tasks@[k].updated_at == version),
        decreases doc.tasks@.len() - i,
    {
        let t = &doc.tasks[i];
        if t.id == id && t.enabled && t.updated_at.nanos == version.nanos {
            proof {
                assert(doc.tasks@[i as int].updated_at == version);
            }
            return true;
        }
        i = i + 1;
    }
    false
}

/// The history, newest first.
pub fn get_history(doc: &StoreDocument) -> (r: Vec<HistoryRecord>)
    ensures
        r@ == doc.history@.reverse(),
{
    let mut r: Vec<HistoryRecord> = Vec::new();
    let n = doc.history.len();
    let mut k: usize = n;
    while k > 0
        invariant
            k <= n,
            n == doc.history@.len(),
            r@ == doc.history@.subrange(k as int, n as int).reverse(),
        decreases k,
    {
        k = k - 1;
        r.push(doc.history[k].clone());
        proof {
            assert(doc.history@.subrange(k as int, n as int).reverse() =~= doc.history@.subrange(
                (k + 1) as int,
                n as int,
            ).reverse().push(doc.history@[k as int]));
        }
    }
    proof {
        assert(doc.history@.subrange(0, n as int) =~= doc.history@);
    }
    r
}

/// Remove every history record.
pub fn clear_history(doc: &mut StoreDocument)
    ensures
        final(doc).history@.len() == 0,
        final(doc).task_views() == old(doc).task_views(),
        final(doc).version == old(doc).version,
        final(doc).settings == old(doc).settings,
{
    doc.history.clear();
}

/// Replace the settings; the history is cut to the new limit at once.
pub fn update_settings(doc: &mut StoreDocument, settings: Settings)
    ensures
        final(doc).settings == settings,
        final(doc).history@ == bounded(old(doc).history@, settings.history_limit as nat),
        final(doc).task_views() == old(doc).task_views(),
        final(doc).version == old(doc).version,
{
    doc.settings = settings;
    bound_history(&mut doc.history, settings.history_limit);
}

// ---------------------------------------------------------------------------
// Creating tasks
// ---------------------------------------------------------------------------

/// The message of a task created with an empty name.
pub open spec fn empty_name_message() -> Seq<char> {
    "task name must not be empty"@
}

/// What creating a task called `name` may give: a name that is empty once
/// surrounding whitespace is removed is refused, then actions with control
/// characters in their text; otherwise the task is created under the
/// trimmed name, enabled, with its first run computed from `now` (which may
/// fail).
pub open spec fn creation_allows(
    name: Seq<char>,
    target: WindowTarget,
    schedule: Schedule,
    actions: Seq<ActionView>,
    misfire_policy: MisfirePolicy,
    now: UtcTime,
    r: AppResult<TaskView>,
) -> bool {
    if spec_trim(name).len() == 0 {
        r matches Err(AppError::InvalidSchedule(m)) && m@ == empty_name_message()
    } else if !actions_valid(actions) {
        r matches Err(AppError::InvalidAction(m)) && m@ == control_text_message()
    } else {
        match r {
            Ok(t) => {
                &&& t.name == spec_trim(name)
                &&& t.enabled
                &&& t.target == target
                &&& t.schedule == schedule
                &&& t.actions == actions
                &&& t.misfire_policy == misfire_policy
                &&& t.created_at == now
                &&& t.updated_at == now
                &&& t.last_run_at is None
                &&& t.next_run_at matches Some(n) && schedule.first_run_allows(now, Ok(n))
            },
            Err(e) => schedule.first_run_allows(now, Err(e)),
        }
    }
}

/// Create a task and append it to the document; the new task is returned.
pub fn create_task(
    doc: &mut StoreDocument,
    name: &str,
    target: WindowTarget,
    schedule: Schedule,
    actions: Vec<Action>,
    misfire_policy: MisfirePolicy,
    now: UtcTime,
) -> (r: AppResult<ScheduledTask>)
    requires
        now.valid(),
    ensures
        creation_allows(
            name@,
            target,
            schedule,
            actions.deep_view(),
            misfire_policy,
            now,
            result_view(r),
        ),
        r matches Ok(t) ==> final(doc).task_views() == old(doc).task_views().push(t@),
        r is Err ==> final(doc).task_views() == old(doc).task_views(),
        final(doc).version == old(doc).version,
        final(doc).settings == old(doc).settings,
        final(doc).history@ == old(doc).history@,
{
    let trimmed = trim(name);
    if trimmed.as_str().is_empty() {
        return Err(AppError::InvalidSchedule(owned("task name must not be empty")));
    }
    let task = ScheduledTask::new(trimmed, target, schedule, actions, misfire_policy, now)?;
    let copy = task.clone();
    let ghost before = doc.task_views();
    doc.tasks.push(copy);
    proof {
        assert(doc.task_views() =~= before.push(task@));
    }
    Ok(task)
}

/// The human-readable summary of a schedule, used as the default name of a
/// quick task.
pub open spec fn schedule_summary(s: Schedule) -> Seq<char> {
    match s {
        Schedule::After { hours, minutes, seconds } => "Automation — after "@ + decimal(
            hours as nat,
        ) + "h "@ + padded_decimal(minutes as int, 2) + "m "@ + padded_decimal(seconds as int, 2)
            + "s"@,
        Schedule::At { year, month, day, hour, minute, second, timezone } => "Automation — at "@
            + padded_decimal(year as int, 4) + "-"@ + padded_decimal(month as int, 2) + "-"@
            + padded_decimal(day as int, 2) + " "@ + padded_decimal(hour as int, 2) + ":"@
            + padded_decimal(minute as int, 2) + ":"@ + padded_decimal(second as int, 2) + " ("@ + (
        if timezone@.len() == 0 {
            "local"@
        } else {
            timezone@
        }) + ")"@,
        Schedule::Every { interval_seconds } => "Automation — every "@ + decimal(
            interval_seconds as nat,
        ) + "s"@,
    }
}

/// Summarize a schedule: `Automation — after 1h 05m 00s`,
/// `Automation — at 2026-09-08 01:26:05 (Asia/Shanghai)` (`local` when no
/// time zone is given), `Automation — every 300s`.
pub fn describe_schedule(schedule: &Schedule) -> (r: String)
    ensures
        r@ == schedule_summary(*schedule),
{
    match schedule {
        Schedule::After { hours, minutes, seconds } => {
            let mut s = owned("Automation — after ");
            s.append(format_u64(*hours as u64).as_str());
            s.append("h ");
            s.append(format_u64_padded(*minutes as u64, 2).as_str());
            s.append("m ");
            s.append(format_u64_padded(*seconds as u64, 2).as_str());
            s.append("s");
            s
        },
        Schedule::At { year, month, day, hour, minute, second, timezone } => {
            let mut s = owned("Automation — at ");
            s.append(format_i64_padded(*year as i64, 4).as_str());
            s.append("-");
            s.append(format_u64_padded(*month as u64, 2).as_str());
            s.append("-");
            s.append(format_u64_padded(*day as u64, 2).as_str());
            s.append(" ");
            s.append(format_u64_padded(*hour as u64, 2).as_str());
            s.append(":");
            s.append(format_u64_padded(*minute as u64, 2).as_str());
            s.append(":");
            s.append(format_u64_padded(*second as u64, 2).as_str());
            s.append(" (");
            if timezone.as_str().is_empty() {
                s.append("local");
            } else {
                s.append(timezone.as_str());
            }
            s.append(")");
            s
        },
        Schedule::Every { interval_seconds } => {
            let mut s = owned("Automation — every ");
            s.append(format_u64(*interval_seconds).as_str());
            s.append("s");
            s
        },
    }
}

/// The name a quick task gets: the given name unless it is missing or
/// blank, otherwise the schedule's summary.
pub open spec fn quick_task_name(name: Option<String>, schedule: Schedule) -> Seq<char> {
    match name {
        Some(n) => if spec_trim(n@).len() > 0 {
            n@
        } else {
            schedule_summary(schedule)
        },
        None => schedule_summary(schedule),
    }
}

/// Create a task from the fast-creation flow: any schedule and any ordered
/// action list, the default misfire policy, and the schedule's summary as
/// the name when none is given.
pub fn create_quick_task(
    doc: &mut StoreDocument,
    name: Option<String>,
    target: WindowTarget,
    schedule: Schedule,
    actions: Vec<Action>,
    now: UtcTime,
) -> (r: AppResult<ScheduledTask>)
    requires
        now.valid(),
    ensures
        creation_allows(
            quick_task_name(name, schedule),
            target,
            schedule,
            actions.deep_view(),
            MisfirePolicy::RunImmediately,
            now,
            result_view(r),
        ),
        r matches Ok(t) ==> final(doc).task_views() == old(doc).task_views().push(t@),
        r is Err ==> final(doc).task_views() == old(doc).task_views(),
        final(doc).version == old(doc).version,
        final(doc).settings == old(doc).settings,
        final(doc).history@ == old(doc).history@,
{
    let chosen = match name {
        Some(n) => {
            if trim(n.as_str()).as_str().is_empty() {
                describe_schedule(&schedule)
            } else {
                n
            }
        },
        None => describe_schedule(&schedule),
    };
    create_task(doc, chosen.as_str(), target, schedule, actions, MisfirePolicy::default(), now)
}

// ---------------------------------------------------------------------------
// Laws
// ---------------------------------------------------------------------------

/// After a deletion no task with the deleted identifier is left, and every
/// other task is kept, in order.
pub proof fn deleted_task_is_gone(tasks: Seq<TaskView>, id: TaskId)
    ensures
        !has_task(without_task(tasks, id), id),
        forall|t: TaskView| #[trigger] without_task(tasks, id).contains(t) <==> tasks.contains(t) && t.id != id,
{
    broadcast use vstd::seq_lib::group_filter_ensures;

    let pred = |t: TaskView| t.id != id;
    let kept = without_task(tasks, id);
    assert(kept == tasks.filter(pred));
    if has_task(kept, id) {
        let i = choose|i: int| 0 <= i < kept.len() && kept[i].id == id;
        assert(pred(kept[i]));
    }
    assert forall|t: TaskView| #[trigger] kept.contains(t) <==> tasks.contains(t) && t.id != id by {
        if kept.contains(t) {
            tasks.lemma_filter_contains_rev(pred, t);
            let i = choose|i: int| 0 <= i < kept.len() && kept[i] == t;
            assert(pred(kept[i]));
        }
        if tasks.contains(t) && t.id != id {
            let i = choose|i: int| 0 <= i < tasks.len() && tasks[i] == t;
            assert(pred(tasks[i]));
        }
    }
}

/// Recording a run never moves a task's last run backwards, and changes
/// nothing else of it.
pub proof fn recorded_run_only_advances_last_run(before: TaskView, started: UtcTime)
    ensures
        after_run(before, started).last_run_at matches Some(t) && t.nanos >= started.nanos && (
        before.last_run_at matches Some(l) ==> t.nanos >= l.nanos),
        after_run(before, started) == (TaskView { last_run_at: after_run(before, started).last_run_at, ..before }),
{
}

} // verus!
