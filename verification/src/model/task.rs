//! Task model: the central entity.

use vstd::prelude::*;

use super::action::{actions_valid, clone_actions, control_text_message, validate_actions, Action, ActionView};
use super::schedule::{MisfirePolicy, Schedule};
use super::target::WindowTarget;
use crate::error::{AppError, AppResult};
use crate::time::UtcTime;

verus! {

/// A task identifier (the 128 bits of a UUID).
#[derive(Debug, Clone, Copy, PartialEq, Eq, Hash, Structural)]
pub struct TaskId {
    pub value: u128,
}

/// `Uuid::new_v4()`: a fresh random identifier. It is random, so nothing is
/// stated of the value.
#[verifier::external_body]
pub(crate) fn new_task_id() -> (r: TaskId) {
    TaskId { value: uuid::Uuid::new_v4().as_u128() }
}

/// A scheduled automation: target window, schedule and ordered actions.
#[derive(Debug, PartialEq, Eq)]
pub struct ScheduledTask {
    pub id: TaskId,
    pub name: String,
    pub enabled: bool,
    pub target: WindowTarget,
    pub schedule: Schedule,
    pub actions: Vec<Action>,
    pub misfire_policy: MisfirePolicy,
    pub created_at: UtcTime,
    pub updated_at: UtcTime,
    pub last_run_at: Option<UtcTime>,
    pub next_run_at: Option<UtcTime>,
}

/// What a task stands for: its fields, with the name and the actions as sequences.
pub ghost struct TaskView {
    pub id: TaskId,
    pub name: Seq<char>,
    pub enabled: bool,
    pub target: WindowTarget,
    pub schedule: Schedule,
    pub actions: Seq<ActionView>,
    pub misfire_policy: MisfirePolicy,
    pub created_at: UtcTime,
    pub updated_at: UtcTime,
    pub last_run_at: Option<UtcTime>,
    pub next_run_at: Option<UtcTime>,
}

impl View for ScheduledTask {
    type V = TaskView;

    open spec fn view(&self) -> TaskView {
        TaskView {
            id: self.id,
            name: self.name@,
            enabled: self.enabled,
            target: self.target,
            schedule: self.schedule,
            actions: self.actions.deep_view(),
            misfire_policy: self.misfire_policy,
            created_at: self.created_at,
            updated_at: self.updated_at,
            last_run_at: self.last_run_at,
            next_run_at: self.next_run_at,
        }
    }
}

impl DeepView for ScheduledTask {
    type V = TaskView;

    open spec fn deep_view(&self) -> TaskView {
        self@
    }
}

impl Clone for ScheduledTask {
    fn clone(&self) -> (r: Self)
        ensures
            r@ == self@,
    {
        ScheduledTask {
            id: self.id,
            name: self.name.clone(),
            enabled: self.enabled,
            target: self.target.clone(),
            schedule: self.schedule.clone(),
            actions: clone_actions(&self.actions),
            misfire_policy: self.misfire_policy,
            created_at: self.created_at,
            updated_at: self.updated_at,
            last_run_at: self.last_run_at,
            next_run_at: self.next_run_at,
        }
    }
}

impl ScheduledTask {
    /// The instants of the task are representable.
    pub open spec fn times_valid(&self) -> bool {
        &&& self.created_at.valid()
        &&& self.updated_at.valid()
        &&& (self.last_run_at matches Some(t) ==> t.valid())
        &&& (self.next_run_at matches Some(t) ==> t.valid())
    }

    /// Create a new, enabled task: the actions are checked (text to type
    /// holds no control characters), then the schedule is validated and
    /// `next_run_at` computed from `now` (an absolute deadline already past
    /// is refused).
    pub fn new(
        name: String,
        target: WindowTarget,
        schedule: Schedule,
        actions: Vec<Action>,
        misfire_policy: MisfirePolicy,
        now: UtcTime,
    ) -> (r: AppResult<Self>)
        requires
            now.valid(),
        ensures
            match r {
                Ok(t) => {
                    &&& actions_valid(actions.deep_view())
                    &&& t.name == name
                    &&& t.enabled
                    &&& t.target == target
                    &&& t.schedule == schedule
                    &&& t.actions == actions
                    &&& t.misfire_policy == misfire_policy
                    &&& t.created_at == now
                    &&& t.updated_at == now
                    &&& t.last_run_at is None
                    &&& t.next_run_at matches Some(next) && schedule.first_run_allows(now, Ok(next))
                    &&& t.times_valid()
                },
                Err(e) => if actions_valid(actions.deep_view()) {
                    schedule.first_run_allows(now, Err(e))
                } else {
                    e matches AppError::InvalidAction(m) && m@ == control_text_message()
                },
            },
    {
        validate_actions(&actions)?;
        let checked = schedule.validate();
        if let Err(e) = checked {
            proof {
                schedule.lemma_validation_error_is_first_run_error(now, e);
            }
            return Err(e);
        }
        let next = schedule.first_run_at(now)?;
        Ok(ScheduledTask {
            id: new_task_id(),
            name,
            enabled: true,
            target,
            schedule,
            actions,
            misfire_policy,
            created_at: now,
            updated_at: now,
            last_run_at: None,
            next_run_at: Some(next),
        })
    }

    /// Re-arm the schedule (after enable, creation or edit): recompute
    /// `next_run_at` from `now` and stamp `updated_at`. On an error the task
    /// is left as it was.
    pub fn rearm(&mut self, now: UtcTime) -> (r: AppResult<()>)
        requires
            now.valid(),
        ensures
            match r {
                Ok(()) => {
                    &&& final(self)@ == (TaskView {
                        next_run_at: final(self).next_run_at,
                        updated_at: now,
                        ..old(self)@
                    })
                    &&& final(self).next_run_at matches Some(next)
                        && old(self).schedule.first_run_allows(now, Ok(next)) && next.valid()
                },
                Err(e) => {
                    &&& final(self)@ == old(self)@
                    &&& old(self).schedule.first_run_allows(now, Err(e))
                },
            },
    {
        let checked = self.schedule.validate();
        if let Err(e) = checked {
            proof {
                self.schedule.lemma_validation_error_is_first_run_error(now, e);
            }
            return Err(e);
        }
        let next = self.schedule.first_run_at(now)?;
        self.next_run_at = Some(next);
        self.updated_at = now;
        Ok(())
    }

    /// Task summary for dashboards and tray menus: its name.
    pub fn display_name(&self) -> (r: &str)
        ensures
            r@ == self.name@,
    {
        self.name.as_str()
    }
}

} // verus!
