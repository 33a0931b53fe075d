//! Scheduler core: firing decisions, misfire handling and the planning of
//! each pass of the scheduler loop. The loop itself (thread, lock, condition
//! variable) runs outside the library and follows `plan_pass`.

use vstd::prelude::*;

use crate::error::{AppError, AppResult};
use crate::model::schedule::{
    in_range_or_error, next_slot, next_slot_is_first_future_grid_point, MisfirePolicy, Schedule,
};
use crate::model::task::{ScheduledTask, TaskView};
use crate::store::json::clone_tasks;
use crate::time::{nanos_in_range, UtcTime, NANOS_PER_SECOND};

verus! {

/// Longest the loop sleeps when nothing is due sooner (15 minutes, in
/// nanoseconds): a periodic reconcile against wall-clock changes.
pub const IDLE_RECONCILE_NANOS: u64 = 900_000_000_000;

/// Outcome computed for one task during a reconcile pass.
#[derive(Debug, Clone, Copy, PartialEq, Eq, Structural)]
pub enum Decision {
    /// Task is enabled with a future `next_run_at`; keep waiting.
    Wait,
    /// Task is disabled; never fires.
    Disabled,
    /// Overdue with `Skip`: cancel the occurrence (no fire).
    SkipOverdue,
    /// Fire now.
    Fire,
}

/// The decision for a task at `now`: disabled tasks never fire; unarmed
/// tasks and tasks due later wait; overdue tasks follow their misfire policy.
pub open spec fn decision_of(t: TaskView, now: UtcTime) -> Decision {
    if !t.enabled {
        Decision::Disabled
    } else {
        match t.next_run_at {
            None => Decision::Wait,
            Some(next) => if next.nanos > now.nanos {
                Decision::Wait
            } else {
                match t.misfire_policy {
                    MisfirePolicy::Skip => Decision::SkipOverdue,
                    MisfirePolicy::RunImmediately => Decision::Fire,
                }
            },
        }
    }
}

/// Pure reconciliation of a task against `now`: the heart of misfire
/// handling and sleep/restart recovery.
pub fn decide(task: &ScheduledTask, now: UtcTime) -> (r: Decision)
    ensures
        r == decision_of(task@, now),
{
    if !task.enabled {
        return Decision::Disabled;
    }
    let next = match task.next_run_at {
        Some(next) => next,
        None => {
            return Decision::Wait;
        },
    };
    if next.is_after(&now) {
        return Decision::Wait;
    }
    match task.misfire_policy {
        MisfirePolicy::Skip => Decision::SkipOverdue,
        MisfirePolicy::RunImmediately => Decision::Fire,
    }
}

/// The run after an occurrence scheduled for `scheduled`: the next grid slot
/// after `now` for recurring schedules with a positive interval, none
/// otherwise.
pub open spec fn following_run(schedule: Schedule, scheduled: UtcTime, now: UtcTime) -> Option<
    UtcTime,
> {
    match schedule {
        Schedule::Every { interval_seconds } => if interval_seconds > 0 {
            match in_range_or_error(next_slot(scheduled, now, interval_seconds as int)) {
                Ok(t) => Some(t),
                Err(_) => None,
            }
        } else {
            None
        },
        _ => None,
    }
}

/// The next `next_run_at` after a task fired at (or was scheduled for)
/// `scheduled`, given the current time `now`: one-shot schedules are done
/// (`None`); recurring ones advance in whole intervals from the scheduled
/// time, so drift never accumulates.
pub fn compute_next_run(task: &ScheduledTask, scheduled: UtcTime, now: UtcTime) -> (r: AppResult<
    Option<UtcTime>,
>)
    requires
        scheduled.valid(),
        now.valid(),
    ensures
        match task.schedule {
            Schedule::Every { interval_seconds } => if interval_seconds == 0 {
                r matches Err(AppError::InvalidSchedule(m))
                    && m@ == crate::model::schedule::zero_interval_message()
            } else if nanos_in_range(next_slot(scheduled, now, interval_seconds as int)) {
                r == Ok::<Option<UtcTime>, AppError>(following_run(task.schedule, scheduled, now))
            } else {
                r matches Err(AppError::InvalidSchedule(m))
                    && m@ == crate::model::schedule::range_message()
            },
            _ => r == Ok::<Option<UtcTime>, AppError>(None),
        },
        r matches Ok(Some(t)) ==> t.valid(),
{
    match task.schedule {
        Schedule::Every { .. } => {
            let next = task.schedule.next_after(scheduled, now)?;
            Ok(Some(next))
        },
        _ => Ok(None),
    }
}

/// A task after reconciliation at `now`: a skipped occurrence moves to the
/// following run; a fired one records `now` as its last run and moves to the
/// following run; other tasks are unchanged.
pub open spec fn reconciled(t: TaskView, now: UtcTime) -> TaskView {
    match decision_of(t, now) {
        Decision::SkipOverdue => TaskView {
            next_run_at: following_run(t.schedule, t.next_run_at.unwrap(), now),
            ..t
        },
        Decision::Fire => TaskView {
            last_run_at: Some(now),
            next_run_at: following_run(t.schedule, t.next_run_at.unwrap(), now),
            ..t
        },
        _ => t,
    }
}

/// The reconciled tasks whose decision at `now` is `d`, in list order.
pub open spec fn decided(tasks: Seq<TaskView>, now: UtcTime, d: Decision) -> Seq<TaskView>
    decreases tasks.len(),
{
    if tasks.len() == 0 {
        Seq::empty()
    } else {
        let rest = decided(tasks.drop_last(), now, d);
        if decision_of(tasks.last(), now) == d {
            rest.push(reconciled(tasks.last(), now))
        } else {
            rest
        }
    }
}

/// The instants a task carries are representable, which is all that
/// reconciling it needs: an interval whose next slot overflows, or an invalid
/// schedule, disarms the task instead.
pub open spec fn reconcile_safe(t: TaskView, now: UtcTime) -> bool {
    t.next_run_at matches Some(n) ==> n.valid()
}

/// The instants for which the tasks that fire at `now` were due (their
/// `next_run_at` before reconciliation), in list order.
pub open spec fn fired_due(tasks: Seq<TaskView>, now: UtcTime) -> Seq<UtcTime>
    decreases tasks.len(),
{
    if tasks.len() == 0 {
        Seq::empty()
    } else {
        let rest = fired_due(tasks.drop_last(), now);
        if decision_of(tasks.last(), now) == Decision::Fire {
            rest.push(tasks.last().next_run_at.unwrap())
        } else {
            rest
        }
    }
}

/// What the engine observes after a reconcile pass.
#[derive(Debug)]
pub struct ReconcileReport {
    /// Tasks to fire now (snapshots taken after their state was updated).
    pub fire: Vec<ScheduledTask>,
    /// For each task in `fire`, at the same index, the instant it was due.
    pub due: Vec<UtcTime>,
    /// Tasks whose overdue occurrence was cancelled by `Skip`.
    pub skipped: Vec<ScheduledTask>,
}

impl Default for ReconcileReport {
    fn default() -> (r: Self)
        ensures
            r.fire@.len() == 0,
            r.due@.len() == 0,
            r.skipped@.len() == 0,
    {
        ReconcileReport { fire: Vec::new(), due: Vec::new(), skipped: Vec::new() }
    }
}

/// Reconcile a whole task list against `now`. Tasks that fire or skip are
/// updated in place (`last_run_at` / `next_run_at`); the report lists them;
/// the caller decides persistence.
pub fn reconcile(tasks: &mut Vec<ScheduledTask>, now: UtcTime) -> (report: ReconcileReport)
    requires
        now.valid(),
        forall|i: int| 0 <= i < old(tasks)@.len() ==> reconcile_safe(#[trigger] old(tasks)@[i]@, now),
    ensures
        final(tasks)@.len() == old(tasks)@.len(),
        forall|i: int|
            0 <= i < old(tasks)@.len() ==> #[trigger] final(tasks)@[i]@ == reconciled(
                old(tasks)@[i]@,
                now,
            ),
        report.fire.deep_view() == decided(old(tasks).deep_view(), now, Decision::Fire),
        report.due@ == fired_due(old(tasks).deep_view(), now),
        report.skipped.deep_view() == decided(old(tasks).deep_view(), now, Decision::SkipOverdue),
{
    let mut report = ReconcileReport::default();
    let ghost before = tasks.deep_view();
    let mut i: usize = 0;
    while i < tasks.len()
        invariant
            now.valid(),
            tasks@.len() == before.len(),
            i <= tasks@.len(),
            forall|k: int| 0 <= k < before.len() ==> reconcile_safe(#[trigger] before[k], now),
            forall|k: int| 0 <= k < i ==> #[trigger] tasks@[k]@ == reconciled(before[k], now),
            forall|k: int| i <= k < before.len() ==> #[trigger] tasks@[k]@ == before[k],
            report.fire.deep_view() == decided(before.take(i as int), now, Decision::Fire),
            report.due@ == fired_due(before.take(i as int), now),
            report.skipped.deep_view() == decided(
                before.take(i as int),
                now,
                Decision::SkipOverdue,
            ),
        decreases tasks@.len() - i,
    {
        proof {
            assert(before.take(i + 1).drop_last() =~= before.take(i as int));
            assert(before.take(i + 1).last() == before[i as int]);
            assert(tasks@[i as int]@ == before[i as int]);
        }
        let d = decide(&tasks[i], now);
        match d {
            Decision::Wait | Decision::Disabled => {},
            Decision::SkipOverdue => {
                let scheduled = tasks[i].next_run_at.unwrap();
                let next = match compute_next_run(&tasks[i], scheduled, now) {
                    Ok(n) => n,
                    Err(_) => None,
                };
                tasks[i].next_run_at = next;
                let snapshot = tasks[i].clone();
                report.skipped.push(snapshot);
            },
            Decision::Fire => {
                let scheduled = tasks[i].next_run_at.unwrap();
                let next = match compute_next_run(&tasks[i], scheduled, now) {
                    Ok(n) => n,
                    Err(_) => None,
                };
                tasks[i].last_run_at = Some(now);
                tasks[i].next_run_at = next;
                let snapshot = tasks[i].clone();
                report.fire.push(snapshot);
                report.due.push(scheduled);
            },
        }
        proof {
            assert(report.fire.deep_view() =~= decided(before.take(i + 1), now, Decision::Fire));
            assert(report.due@ =~= fired_due(before.take(i + 1), now));
            assert(report.skipped.deep_view() =~= decided(
                before.take(i + 1),
                now,
                Decision::SkipOverdue,
            ));
        }
        i = i + 1;
    }
    proof {
        assert(before.take(i as int) =~= before);
    }
    report
}

// ---------------------------------------------------------------------------
// Laws of reconciliation
// ---------------------------------------------------------------------------

/// Reconciliation settles a task: once reconciled at `now`, a task neither
/// fires nor skips again at `now` (a fired recurring task moves to a future
/// slot, a fired one-shot task is disarmed), so a second pass at the same
/// instant changes nothing.
pub proof fn reconcile_settles(t: TaskView, now: UtcTime)
    requires
        reconcile_safe(t, now),
    ensures
        decision_of(reconciled(t, now), now) == Decision::Wait || decision_of(
            reconciled(t, now),
            now,
        ) == Decision::Disabled,
        reconciled(reconciled(t, now), now) == reconciled(t, now),
{
    let d = decision_of(t, now);
    if d == Decision::Fire || d == Decision::SkipOverdue {
        if let Schedule::Every { interval_seconds } = t.schedule {
            if interval_seconds > 0 {
                next_slot_is_first_future_grid_point(
                    t.next_run_at.unwrap(),
                    now,
                    interval_seconds as int,
                );
            }
        }
    }
}

/// Disabled tasks never fire: reconciliation leaves them as they are.
pub proof fn disabled_tasks_are_untouched(t: TaskView, now: UtcTime)
    requires
        !t.enabled,
    ensures
        decision_of(t, now) == Decision::Disabled,
        reconciled(t, now) == t,
{
}

/// Tasks due later wait: reconciliation leaves them as they are.
pub proof fn future_tasks_wait(t: TaskView, now: UtcTime)
    requires
        t.next_run_at matches Some(n) && n.nanos > now.nanos,
    ensures
        decision_of(t, now) != Decision::Fire,
        decision_of(t, now) != Decision::SkipOverdue,
        reconciled(t, now) == t,
{
}

/// The misfire policy decides an overdue occurrence: `RunImmediately` fires
/// it and records `now` as the last run; `Skip` never records a run.
pub proof fn misfire_policy_decides_overdue(t: TaskView, now: UtcTime)
    requires
        t.enabled,
        t.next_run_at matches Some(n) && n.nanos <= now.nanos,
    ensures
        t.misfire_policy == MisfirePolicy::RunImmediately ==> decision_of(t, now) == Decision::Fire
            && reconciled(t, now).last_run_at == Some(now),
        t.misfire_policy == MisfirePolicy::Skip ==> decision_of(t, now) == Decision::SkipOverdue
            && reconciled(t, now).last_run_at == t.last_run_at,
{
}

/// After an overdue occurrence (fired or skipped), a recurring task is
/// re-armed on its original grid, strictly after `now`, at the first such
/// slot; a one-shot task, a zero interval or a slot past the representable
/// range disarms the task.
pub proof fn overdue_occurrence_rearms_on_grid(t: TaskView, now: UtcTime)
    requires
        reconcile_safe(t, now),
        decision_of(t, now) == Decision::Fire || decision_of(t, now) == Decision::SkipOverdue,
    ensures
        match t.schedule {
            Schedule::Every { interval_seconds } => if interval_seconds == 0 || !nanos_in_range(
                next_slot(t.next_run_at.unwrap(), now, interval_seconds as int),
            ) {
                reconciled(t, now).next_run_at is None
            } else {
                let step = interval_seconds * NANOS_PER_SECOND;
                let s = t.next_run_at.unwrap().nanos;
                &&& reconciled(t, now).next_run_at matches Some(n)
                &&& n.nanos > now.nanos
                &&& (n.nanos - s) % step == 0
                &&& (n.nanos - step <= now.nanos || n.nanos == s + step)
            },
            _ => reconciled(t, now).next_run_at is None,
        },
{
    if let Schedule::Every { interval_seconds } = t.schedule {
        if interval_seconds > 0 {
            next_slot_is_first_future_grid_point(
                t.next_run_at.unwrap(),
                now,
                interval_seconds as int,
            );
        }
    }
}

// ---------------------------------------------------------------------------
// One pass of the scheduler loop
// ---------------------------------------------------------------------------

/// The state the scheduler loop guards with its lock.
#[derive(Debug)]
pub struct SchedulerState {
    pub tasks: Vec<ScheduledTask>,
    pub paused: bool,
    pub running: bool,
}

/// What the loop does after a pass.
#[derive(Debug)]
pub enum PassPlan {
    /// Shut down: the scheduler was stopped.
    Stop,
    /// Hand `fire` to the executor, each task with the instant it was due
    /// (`due`, same index), report the updated list `snapshot` for
    /// persistence; then pass again.
    Dispatch { fire: Vec<ScheduledTask>, due: Vec<UtcTime>, snapshot: Vec<ScheduledTask> },
    /// Sleep up to `nanos` nanoseconds (or until woken), then pass again.
    Sleep { nanos: u64 },
}

/// Some task is overdue at `now`: it fires, or its occurrence is skipped.
pub open spec fn any_due(tasks: Seq<TaskView>, now: UtcTime) -> bool {
    exists|i: int|
        0 <= i < tasks.len() && (decision_of(#[trigger] tasks[i], now) == Decision::Fire
            || decision_of(tasks[i], now) == Decision::SkipOverdue)
}

/// The earliest `next_run_at` among the tasks, in nanoseconds.
pub open spec fn earliest_next(tasks: Seq<TaskView>) -> Option<i128>
    decreases tasks.len(),
{
    if tasks.len() == 0 {
        None
    } else {
        let rest = earliest_next(tasks.drop_last());
        match tasks.last().next_run_at {
            None => rest,
            Some(t) => match rest {
                None => Some(t.nanos),
                Some(r) => Some(if t.nanos < r { t.nanos } else { r }),
            },
        }
    }
}

/// How long the loop sleeps when nothing fires: until the earliest
/// `next_run_at` (not less than zero), at most `IDLE_RECONCILE_NANOS`, and
/// exactly that when paused or when no task is armed.
pub open spec fn sleep_nanos(tasks: Seq<TaskView>, now: UtcTime, paused: bool) -> int {
    if paused {
        IDLE_RECONCILE_NANOS as int
    } else {
        match earliest_next(tasks) {
            None => IDLE_RECONCILE_NANOS as int,
            Some(at) => {
                let d = at - now.nanos;
                if d <= 0 {
                    0
                } else if d < IDLE_RECONCILE_NANOS {
                    d
                } else {
                    IDLE_RECONCILE_NANOS as int
                }
            },
        }
    }
}

fn earliest_next_of(tasks: &Vec<ScheduledTask>) -> (r: Option<i128>)
    requires
        forall|i: int|
            0 <= i < tasks@.len() ==> ((#[trigger] tasks@[i]).next_run_at matches Some(n) ==> n.valid()),
    ensures
        r == earliest_next(tasks.deep_view()),
        r matches Some(v) ==> nanos_in_range(v as int),
{
    let ghost all = tasks.deep_view();
    let mut best: Option<i128> = None;
    let mut i: usize = 0;
    while i < tasks.len()
        invariant
            i <= tasks.len(),
            all == tasks.deep_view(),
            forall|k: int|
                0 <= k < tasks@.len() ==> ((#[trigger] tasks@[k]).next_run_at matches Some(n) ==> n.valid()),
            best == earliest_next(all.take(i as int)),
            best matches Some(v) ==> nanos_in_range(v as int),
        decreases tasks.len() - i,
    {
        proof {
            assert(all.take(i + 1).drop_last() =~= all.take(i as int));
            assert(all.take(i + 1).last() == tasks@[i as int]@);
        }
        match tasks[i].next_run_at {
            None => {},
            Some(t) => {
                best = match best {
                    None => Some(t.nanos),
                    Some(b) => Some(if t.nanos < b { t.nanos } else { b }),
                };
            },
        }
        i = i + 1;
    }
    proof {
        assert(all.take(i as int) =~= all);
    }
    best
}

fn any_due_of(tasks: &Vec<ScheduledTask>, now: UtcTime) -> (r: bool)
    ensures
        r == any_due(tasks.deep_view(), now),
{
    let mut i: usize = 0;
    while i < tasks.len()
        invariant
            i <= tasks.len(),
            forall|k: int|
                0 <= k < i ==> decision_of(#[trigger] tasks@[k]@, now) != Decision::Fire
                    && decision_of(tasks@[k]@, now) != Decision::SkipOverdue,
        decreases tasks.len() - i,
    {
        let d = decide(&tasks[i], now);
        if d == Decision::Fire || d == Decision::SkipOverdue {
            proof {
                assert(tasks.deep_view()[i as int] == tasks@[i as int]@);
            }
            return true;
        }
        i = i + 1;
    }
    proof {
        assert forall|k: int| 0 <= k < tasks.deep_view().len() implies decision_of(
            #[trigger] tasks.deep_view()[k],
            now,
        ) != Decision::Fire && decision_of(tasks.deep_view()[k], now) != Decision::SkipOverdue by {
            assert(tasks.deep_view()[k] == tasks@[k]@);
        }
    }
    false
}

proof fn lemma_fired_due_len(tasks: Seq<TaskView>, now: UtcTime)
    ensures
        fired_due(tasks, now).len() == decided(tasks, now, Decision::Fire).len(),
    decreases tasks.len(),
{
    if tasks.len() > 0 {
        lemma_fired_due_len(tasks.drop_last(), now);
    }
}

/// The original due time is kept: the instant handed out with the `k`-th
/// task to fire is the `next_run_at` that task had before the pass, while
/// the task itself comes out reconciled (re-armed or disarmed).
pub proof fn fired_tasks_carry_their_original_due_time(tasks: Seq<TaskView>, now: UtcTime, k: int)
    requires
        0 <= k < decided(tasks, now, Decision::Fire).len(),
    ensures
        fired_due(tasks, now).len() == decided(tasks, now, Decision::Fire).len(),
        exists|i: int|
            0 <= i < tasks.len() && decision_of(tasks[i], now) == Decision::Fire
                && #[trigger] tasks[i].next_run_at == Some(fired_due(tasks, now)[k]) && decided(
                tasks,
                now,
                Decision::Fire,
            )[k] == reconciled(tasks[i], now),
    decreases tasks.len(),
{
    lemma_fired_due_len(tasks, now);
    let n = tasks.len() - 1;
    let rest = tasks.drop_last();
    lemma_fired_due_len(rest, now);
    if decision_of(tasks.last(), now) == Decision::Fire && k == decided(rest, now, Decision::Fire).len() {
        assert(tasks[n].next_run_at == Some(fired_due(tasks, now)[k]));
    } else {
        fired_tasks_carry_their_original_due_time(rest, now, k);
        let i = choose|i: int|
            0 <= i < rest.len() && decision_of(rest[i], now) == Decision::Fire
                && #[trigger] rest[i].next_run_at == Some(fired_due(rest, now)[k]) && decided(
                rest,
                now,
                Decision::Fire,
            )[k] == reconciled(rest[i], now);
        assert(rest[i] == tasks[i]);
        assert(tasks[i].next_run_at == Some(fired_due(tasks, now)[k]));
    }
}

/// One pass of the scheduler loop at `now`. A stopped scheduler stops. When
/// it is not paused and some task is overdue (it fires, or its occurrence is
/// skipped), the list is reconciled in place and the tasks to fire, with the
/// instants they were due, and the updated list are handed out; otherwise it
/// sleeps until the earliest `next_run_at`, at most the idle period. Pausing
/// only stops firing: `next_run_at` values stay.
pub fn plan_pass(state: &mut SchedulerState, now: UtcTime) -> (plan: PassPlan)
    requires
        now.valid(),
        !old(state).paused ==> forall|i: int|
            0 <= i < old(state).tasks@.len() ==> reconcile_safe(#[trigger] old(state).tasks@[i]@, now),
    ensures
        final(state).paused == old(state).paused,
        final(state).running == old(state).running,
        !old(state).running ==> plan is Stop && final(state).tasks.deep_view() == old(
            state,
        ).tasks.deep_view(),
        old(state).running && !old(state).paused && any_due(old(state).tasks.deep_view(), now)
            ==> match plan {
            PassPlan::Dispatch { fire, due, snapshot } => {
                &&& final(state).tasks@.len() == old(state).tasks@.len()
                &&& forall|i: int|
                    0 <= i < old(state).tasks@.len() ==> #[trigger] final(state).tasks@[i]@
                        == reconciled(old(state).tasks@[i]@, now)
                &&& fire.deep_view() == decided(
                    old(state).tasks.deep_view(),
                    now,
                    Decision::Fire,
                )
                &&& due@ == fired_due(old(state).tasks.deep_view(), now)
                &&& snapshot.deep_view() == final(state).tasks.deep_view()
            },
            _ => false,
        },
        old(state).running && !(!old(state).paused && any_due(old(state).tasks.deep_view(), now))
            ==> (plan == (PassPlan::Sleep {
            nanos: sleep_nanos(old(state).tasks.deep_view(), now, old(state).paused) as u64,
        }) && final(state).tasks.deep_view() == old(state).tasks.deep_view()),
{
    if !state.running {
        return PassPlan::Stop;
    }
    if state.paused {
        return PassPlan::Sleep { nanos: IDLE_RECONCILE_NANOS };
    }
    if any_due_of(&state.tasks, now) {
        let report = reconcile(&mut state.tasks, now);
        let snapshot = clone_tasks(&state.tasks);
        return PassPlan::Dispatch { fire: report.fire, due: report.due, snapshot };
    }
    proof {
        assert forall|i: int| 0 <= i < state.tasks@.len() implies ((
        #[trigger] state.tasks@[i]).next_run_at matches Some(n) ==> n.valid()) by {
            assert(reconcile_safe(state.tasks@[i]@, now));
        }
    }
    let nanos: u64 = match earliest_next_of(&state.tasks) {
        None => IDLE_RECONCILE_NANOS,
        Some(at) => {
            if at <= now.nanos {
                0
            } else if at - now.nanos < IDLE_RECONCILE_NANOS as i128 {
                (at - now.nanos) as u64
            } else {
                IDLE_RECONCILE_NANOS
            }
        },
    };
    PassPlan::Sleep { nanos }
}

/// A pass settles the list: after a dispatching pass at `now`, no task is
/// overdue at `now` any more, so the next pass at the same instant sleeps
/// instead of dispatching again.
pub proof fn dispatch_settles(tasks: Seq<TaskView>, now: UtcTime)
    requires
        forall|i: int| 0 <= i < tasks.len() ==> reconcile_safe(#[trigger] tasks[i], now),
    ensures
        !any_due(tasks.map_values(|t: TaskView| reconciled(t, now)), now),
{
    let after = tasks.map_values(|t: TaskView| reconciled(t, now));
    assert forall|i: int| 0 <= i < after.len() implies decision_of(#[trigger] after[i], now)
        != Decision::Fire && decision_of(after[i], now) != Decision::SkipOverdue by {
        reconcile_settles(tasks[i], now);
    }
}

} // verus!
