//! The action sequencer: ordered, safe execution of a task's actions.
//!
//! Execution contract:
//! 1. Resolve the target: a cached window handle is checked first and dropped
//!    when the window is gone; the windows are always enumerated and matched,
//!    so a second matching window is never missed. Ambiguity aborts with no
//!    input sent.
//! 2. Restore and activate the target; activation must be verified.
//! 3. Run actions strictly in order. Before each input step the foreground
//!    window is checked: with focus checks on, focus loss aborts; with them
//!    off, the target is re-activated and the activation verified. Long
//!    delays are followed by a focus check when focus checks are on.
//! 4. Before each input step and after each delay the run asks whether it is
//!    still current; a paused, edited or deleted task cancels the rest.
//! 5. Any verification or input failure aborts with a structured error.
//!
//! The sequencer is a state machine: `Sequencer::step` takes the reply to
//! the previous request and returns the next request for the desktop. The
//! loop that performs the requests lives outside the library.

use vstd::prelude::*;

use crate::error::{AppError, AppResult};
use crate::model::action::{Action, ActionView};
use crate::model::history::{ExecutionOutcome, HistoryRecord};
use crate::model::key::Key;
use crate::model::settings::Settings;
use crate::model::target::{WindowCandidate, WindowTarget};
use crate::model::task::{new_task_id, ScheduledTask};
use crate::platform::matching::{resolution_allows, resolve_target, scan};
use crate::text::{decimal, format_u64, join2, join3, owned};
use crate::time::{utc_now, UtcTime};

verus! {

/// Delays at least this long (milliseconds) are followed by a focus re-check.
pub const FOCUS_RECHECK_DELAY_MS: u64 = 3000;

/// What the sequencer asks the desktop to do next.
#[derive(Debug, PartialEq, Eq)]
pub enum Request {
    /// Check that the cached window still exists and describe it.
    VerifyCached { hwnd: u64 },
    /// List all visible top-level windows.
    Enumerate,
    /// Restore the window if it is minimized.
    Restore { hwnd: u64 },
    /// Bring the window to the foreground and verify that it is there.
    Activate { hwnd: u64 },
    /// Is the window the foreground window?
    IsForeground { hwnd: u64 },
    /// Type text as keyboard events.
    TypeText { hwnd: u64, text: String },
    /// Press a key `count` times, `interval_ms` apart.
    PressKey { hwnd: u64, key: Key, count: u32, interval_ms: u64 },
    /// Press a key combination with press-and-hold semantics.
    PressCombination { hwnd: u64, keys: Vec<Key> },
    /// Wait.
    Sleep { milliseconds: u64 },
    /// Is the run still wanted (scheduler running, task unchanged and
    /// enabled)?
    StillCurrent,
    /// Show a notification.
    Notify { message: String },
    /// The run is over: the description of the target, or the error.
    Finished { result: AppResult<String> },
}

/// The desktop's answer to the previous request.
#[derive(Debug, PartialEq, Eq)]
pub enum Reply {
    /// Nothing yet: the first step of a run.
    Start,
    /// Answer to `VerifyCached`.
    Cached(Option<WindowCandidate>),
    /// Answer to `Enumerate`.
    Windows(Vec<WindowCandidate>),
    /// Answer to `Restore`, `Sleep` and `Notify`.
    Done,
    /// Answer to `Activate` and the input requests.
    Outcome(AppResult<()>),
    /// Answer to `IsForeground`.
    Foreground(bool),
    /// Answer to `StillCurrent`.
    Current(bool),
}

/// Where a run stands.
#[derive(Debug, Clone, Copy, PartialEq, Eq, Structural)]
pub enum Phase {
    Start,
    AwaitCached,
    AwaitWindows,
    AwaitRestore,
    AwaitActivate,
    AwaitFocusCheck,
    AwaitReactivate,
    AwaitCurrent,
    AwaitStep,
    AwaitDelayCheck,
    AwaitResume,
    Finished,
}

/// The state of one run of a task's action sequence.
#[derive(Debug)]
pub struct Sequencer {
    /// The task being run; resolution updates `target.last_hwnd`.
    pub task: ScheduledTask,
    pub abort_on_focus_loss: bool,
    pub phase: Phase,
    /// The resolved window.
    pub hwnd: u64,
    /// The human-readable description of the resolved window.
    pub description: String,
    /// The action being carried out.
    pub index: usize,
    /// The initial activation of the target was verified.
    pub activated: bool,
}

/// Typing, pressing a key, or pressing a combination: the steps that inject
/// keyboard input.
pub open spec fn is_input(a: ActionView) -> bool {
    a is TypeText || a is PressKey || a is KeyCombination
}

/// The request injects keyboard input.
pub open spec fn is_input_request(r: Request) -> bool {
    r is TypeText || r is PressKey || r is PressCombination
}

/// `req` carries out action `a` on window `hwnd` (a delay is capped at
/// `u32::MAX` milliseconds).
pub open spec fn performs(req: Request, a: ActionView, hwnd: u64) -> bool {
    match a {
        ActionView::FocusTarget => req == Request::Activate { hwnd },
        ActionView::RestoreTarget => req == Request::Restore { hwnd },
        ActionView::TypeText { text } => req matches Request::TypeText { hwnd: h, text: t } && h
            == hwnd && t@ == text,
        ActionView::PressKey { key, count, interval_ms } => req == Request::PressKey {
            hwnd,
            key,
            count,
            interval_ms,
        },
        ActionView::KeyCombination { keys } => req matches Request::PressCombination {
            hwnd: h,
            keys: k,
        } && h == hwnd && k@ == keys,
        ActionView::Delay { milliseconds } => req == Request::Sleep {
            milliseconds: if milliseconds <= u32::MAX { milliseconds } else { u32::MAX as u64 },
        },
        ActionView::Notify { message } => req matches Request::Notify { message: m } && m@
            == message,
    }
}

/// How a resolved window is described: `title (process, PID n)`.
pub open spec fn describe_text(c: WindowCandidate) -> Seq<char> {
    c.title@ + " ("@ + c.process_name@ + ", PID "@ + decimal(c.process_id as nat) + ")"@
}

/// The one candidate that matches the target, when exactly one does.
pub open spec fn single_match(cands: Seq<WindowCandidate>, t: WindowTarget) -> Option<
    WindowCandidate,
> {
    match scan(cands, t) {
        Ok(idx) => if idx.len() == 1 {
            Some(cands[idx[0]])
        } else {
            None
        },
        Err(_) => None,
    }
}

/// The target with `last_hwnd` replaced.
pub open spec fn with_last_hwnd(t: WindowTarget, h: Option<u64>) -> WindowTarget {
    WindowTarget { last_hwnd: h, ..t }
}

/// The window, its description and the task are carried over unchanged.
pub open spec fn keeps_target(pre: Sequencer, post: Sequencer) -> bool {
    post.hwnd == pre.hwnd && post.description == pre.description && post.task == pre.task
}

/// The transition out of `AwaitCached`: the windows are enumerated in any
/// case; a cached window that is gone is dropped from the target first.
pub open spec fn cached_transition(pre: Sequencer, post: Sequencer, reply: Reply, req: Request) -> bool {
    &&& post.phase == Phase::AwaitWindows
    &&& req == Request::Enumerate
    &&& match reply {
        Reply::Cached(Some(_)) => post.task == pre.task,
        _ => post.task.target == with_last_hwnd(pre.task.target, None) && post.task.actions
            == pre.task.actions,
    }
}

/// The transition out of `AwaitWindows`: exactly one matching window is
/// resolved and cached; otherwise the run ends with the resolution error.
pub open spec fn windows_transition(pre: Sequencer, post: Sequencer, reply: Reply, req: Request) -> bool {
    match reply {
        Reply::Windows(ws) => match single_match(ws@, pre.task.target) {
            Some(c) => {
                &&& post.phase == Phase::AwaitRestore
                &&& req == Request::Restore { hwnd: c.hwnd }
                &&& post.hwnd == c.hwnd
                &&& post.description@ == describe_text(c)
                &&& post.task.target == with_last_hwnd(pre.task.target, Some(c.hwnd))
                &&& post.task.actions == pre.task.actions
            },
            None => req matches Request::Finished { result: Err(e) } && post.phase
                == Phase::Finished && resolution_allows(ws@, pre.task.target, Err(e)),
        },
        _ => false,
    }
}

/// The transitions of a run, phase by phase.
pub open spec fn transition(pre: Sequencer, post: Sequencer, reply: Reply, req: Request) -> bool {
    match pre.phase {
        Phase::Start => post.task == pre.task && match pre.task.target.last_hwnd {
            Some(raw) => post.phase == Phase::AwaitCached && req == Request::VerifyCached {
                hwnd: raw,
            },
            None => post.phase == Phase::AwaitWindows && req == Request::Enumerate,
        },
        Phase::AwaitCached => cached_transition(pre, post, reply, req),
        Phase::AwaitWindows => windows_transition(pre, post, reply, req),
        Phase::AwaitRestore => keeps_target(pre, post) && post.phase == Phase::AwaitActivate && req
            == Request::Activate { hwnd: pre.hwnd },
        Phase::AwaitActivate => keeps_target(pre, post) && (reply == Reply::Outcome(Ok(()))
            ==> post.activated && post.index == 0 && post.begins_action(req)),
        Phase::AwaitFocusCheck => keeps_target(pre, post) && post.index == pre.index && match reply {
            Reply::Foreground(true) => post.phase == Phase::AwaitCurrent && req
                == Request::StillCurrent,
            Reply::Foreground(false) => if pre.abort_on_focus_loss {
                post.fails_with(req, AppError::TargetLostFocus)
            } else {
                post.phase == Phase::AwaitReactivate && req == Request::Activate { hwnd: pre.hwnd }
            },
            _ => true,
        },
        Phase::AwaitReactivate => keeps_target(pre, post) && post.index == pre.index && (reply
            == Reply::Outcome(Ok(())) ==> post.phase == Phase::AwaitCurrent && req
            == Request::StillCurrent),
        Phase::AwaitCurrent => keeps_target(pre, post) && (reply == Reply::Current(true)
            ==> post.phase == Phase::AwaitStep && post.index == pre.index && performs(
            req,
            pre.current(),
            pre.hwnd,
        )),
        Phase::AwaitStep => keeps_target(pre, post) && (!(reply matches Reply::Outcome(Err(_)))
            ==> pre.completes(post, req)),
        Phase::AwaitDelayCheck => keeps_target(pre, post) && post.index == pre.index && (reply
            == Reply::Foreground(true) ==> post.phase == Phase::AwaitResume && req
            == Request::StillCurrent),
        Phase::AwaitResume => keeps_target(pre, post) && (reply == Reply::Current(true)
            ==> post.index == pre.index + 1 && post.begins_action(req)),
        Phase::Finished => true,
    }
}

/// The focus of the target was confirmed by the reply to `pre`: the target
/// was found in the foreground, or (with focus checks off) it was
/// re-activated and the activation verified.
pub open spec fn focus_confirmed(pre: Sequencer, reply: Reply) -> bool {
    ||| pre.phase == Phase::AwaitFocusCheck && reply == Reply::Foreground(true)
    ||| pre.phase == Phase::AwaitReactivate && reply == Reply::Outcome(Ok(()))
}

/// The window an input request is sent to.
pub open spec fn request_hwnd(r: Request) -> u64 {
    match r {
        Request::TypeText { hwnd, .. } => hwnd,
        Request::PressKey { hwnd, .. } => hwnd,
        Request::PressCombination { hwnd, .. } => hwnd,
        _ => 0,
    }
}

/// `reply` lists the windows and exactly one of them, with handle `h`,
/// matches the target of `pre`.
pub open spec fn resolves_to(pre: Sequencer, reply: Reply, h: u64) -> bool {
    reply matches Reply::Windows(ws) && (single_match(ws@, pre.task.target) matches Some(c) && c.hwnd
        == h)
}

/// Everything one step promises: the state stays reachable, the task's
/// actions and identity and the focus policy never change, keyboard input is
/// requested only after a verified activation and only right after the run
/// was confirmed to be still current, which in turn is asked only right
/// after the target's focus was confirmed; every failure reply ends the run
/// with that error, focus loss with focus checks on ends it, a run that is no
/// longer current is cancelled, and the phase-by-phase transition holds.
pub open spec fn step_spec(pre: Sequencer, post: Sequencer, reply: Reply, req: Request) -> bool {
    &&& post.phase != Phase::Finished ==> post.well_formed()
    &&& post.task.actions == pre.task.actions
    &&& post.task.id == pre.task.id
    &&& post.abort_on_focus_loss == pre.abort_on_focus_loss
    &&& is_input_request(req) ==> post.activated && (pre.activated || reply == Reply::Outcome(
        Ok(()),
    ))
    &&& is_input_request(req) ==> pre.phase == Phase::AwaitCurrent && reply == Reply::Current(true)
        && request_hwnd(req) == pre.hwnd
    &&& (pre.activated || pre.phase == Phase::AwaitActivate) ==> post.hwnd == pre.hwnd
    &&& post.phase == Phase::AwaitFocusCheck ==> req == Request::IsForeground { hwnd: post.hwnd }
    &&& post.phase == Phase::AwaitActivate ==> pre.phase == Phase::AwaitRestore && reply == Reply::Done
        && post.hwnd == pre.hwnd && req == Request::Activate { hwnd: pre.hwnd }
    &&& post.phase == Phase::AwaitRestore ==> pre.phase == Phase::AwaitWindows && resolves_to(
        pre,
        reply,
        post.hwnd,
    ) && req == Request::Restore { hwnd: post.hwnd }
    &&& post.phase == Phase::AwaitCurrent ==> focus_confirmed(pre, reply)
    &&& pre.activated ==> post.activated
    &&& post.activated && !pre.activated ==> pre.phase == Phase::AwaitActivate && reply
        == Reply::Outcome(Ok(()))
    &&& reply matches Reply::Outcome(Err(e)) ==> post.fails_with(req, e)
    &&& reply == Reply::Foreground(false) && pre.abort_on_focus_loss ==> post.fails_with(
        req,
        AppError::TargetLostFocus,
    )
    &&& reply == Reply::Current(false) ==> post.fails_with(req, AppError::ExecutionCancelled)
    &&& transition(pre, post, reply, req)
}

/// A run seen from outside: the states it went through, the reply handed
/// to each step and the request each step returned.
pub open spec fn is_run(states: Seq<Sequencer>, replies: Seq<Reply>, requests: Seq<Request>) -> bool {
    &&& states.len() == replies.len() + 1
    &&& requests.len() == replies.len()
    &&& forall|i: int|
        0 <= i < replies.len() ==> #[trigger] step_spec(
            states[i],
            states[i + 1],
            replies[i],
            requests[i],
        )
    &&& forall|i: int| 0 <= i < replies.len() ==> #[trigger] states[i].accepts(replies[i])
}

/// The step `j` of a run verified the activation of the target.
pub open spec fn activation_verified_at(states: Seq<Sequencer>, replies: Seq<Reply>, j: int) -> bool {
    states[j].phase == Phase::AwaitActivate && replies[j] == Reply::Outcome(Ok(()))
}

proof fn lemma_activation_has_a_cause(
    states: Seq<Sequencer>,
    replies: Seq<Reply>,
    requests: Seq<Request>,
    k: int,
)
    requires
        is_run(states, replies, requests),
        !states[0].activated,
        0 <= k < states.len(),
        states[k].activated,
    ensures
        exists|j: int| 0 <= j < k && #[trigger] activation_verified_at(states, replies, j),
    decreases k,
{
    let j = k - 1;
    assert(step_spec(states[j], states[j + 1], replies[j], requests[j]));
    if states[j].activated {
        lemma_activation_has_a_cause(states, replies, requests, j);
    } else {
        assert(activation_verified_at(states, replies, j));
    }
}

/// In any run that starts unactivated, keyboard input is requested only
/// after a step at which the activation of the resolved target was
/// verified: a failed activation, an ambiguous or missing target or an
/// invalid pattern never lets input through.
pub proof fn no_input_before_verified_activation(
    states: Seq<Sequencer>,
    replies: Seq<Reply>,
    requests: Seq<Request>,
    i: int,
)
    requires
        is_run(states, replies, requests),
        !states[0].activated,
        0 <= i < requests.len(),
        is_input_request(requests[i]),
    ensures
        exists|j: int| 0 <= j <= i && #[trigger] activation_verified_at(states, replies, j),
{
    assert(step_spec(states[i], states[i + 1], replies[i], requests[i]));
    lemma_activation_has_a_cause(states, replies, requests, i + 1);
}

/// In any run from the start, each keyboard input is requested in answer to
/// a confirmation that the run is still current (so a paused, edited or
/// deleted task sends no more input), and that question was asked right
/// after the target's focus was confirmed: found in the foreground, or, with
/// focus checks off, re-activated with the activation verified.
pub proof fn input_follows_focus_and_currency_checks(
    states: Seq<Sequencer>,
    replies: Seq<Reply>,
    requests: Seq<Request>,
    i: int,
)
    requires
        is_run(states, replies, requests),
        states[0].phase == Phase::Start,
        0 <= i < requests.len(),
        is_input_request(requests[i]),
    ensures
        i >= 1,
        states[i].phase == Phase::AwaitCurrent,
        replies[i] == Reply::Current(true),
        focus_confirmed(states[i - 1], replies[i - 1]),
{
    assert(step_spec(states[i], states[i + 1], replies[i], requests[i]));
    assert(i >= 1);
    let j = i - 1;
    assert(step_spec(states[j], states[j + 1], replies[j], requests[j]));
}

/// Step `j` of a run verified the activation of window `h`, and the two
/// steps before it resolved the target to exactly the window `h` (asking to
/// restore it) and then asked to activate it.
pub open spec fn target_verified_at(
    states: Seq<Sequencer>,
    replies: Seq<Reply>,
    requests: Seq<Request>,
    j: int,
    h: u64,
) -> bool {
    &&& 2 <= j
    &&& activation_verified_at(states, replies, j)
    &&& states[j].hwnd == h
    &&& states[j - 1].phase == Phase::AwaitRestore
    &&& replies[j - 1] == Reply::Done
    &&& requests[j - 1] == Request::Activate { hwnd: h }
    &&& states[j - 2].phase == Phase::AwaitWindows
    &&& resolves_to(states[j - 2], replies[j - 2], h)
    &&& requests[j - 2] == Request::Restore { hwnd: h }
}

proof fn lemma_policy_is_fixed(
    states: Seq<Sequencer>,
    replies: Seq<Reply>,
    requests: Seq<Request>,
    k: int,
)
    requires
        is_run(states, replies, requests),
        0 <= k < states.len(),
    ensures
        states[k].abort_on_focus_loss == states[0].abort_on_focus_loss,
    decreases k,
{
    if k > 0 {
        let j = k - 1;
        assert(step_spec(states[j], states[j + 1], replies[j], requests[j]));
        lemma_policy_is_fixed(states, replies, requests, j);
    }
}

proof fn lemma_reached_states_are_well_formed(
    states: Seq<Sequencer>,
    replies: Seq<Reply>,
    requests: Seq<Request>,
    k: int,
)
    requires
        is_run(states, replies, requests),
        states[0].well_formed(),
        0 <= k < states.len(),
        states[k].phase != Phase::Finished,
    ensures
        states[k].well_formed(),
{
    if k > 0 {
        let j = k - 1;
        assert(step_spec(states[j], states[j + 1], replies[j], requests[j]));
    }
}

proof fn lemma_activated_target(
    states: Seq<Sequencer>,
    replies: Seq<Reply>,
    requests: Seq<Request>,
    k: int,
)
    requires
        is_run(states, replies, requests),
        states[0].phase == Phase::Start,
        states[0].well_formed(),
        0 <= k < states.len(),
        states[k].activated,
    ensures
        exists|j: int| j < k && #[trigger] target_verified_at(states, replies, requests, j, states[k].hwnd),
    decreases k,
{
    let j = k - 1;
    assert(step_spec(states[j], states[j + 1], replies[j], requests[j]));
    if states[j].activated {
        lemma_activated_target(states, replies, requests, j);
        let w = choose|w: int| w < j && #[trigger] target_verified_at(states, replies, requests, w, states[j].hwnd);
        assert(target_verified_at(states, replies, requests, w, states[k].hwnd));
    } else {
        assert(states[j].phase == Phase::AwaitActivate);
        let a = j - 1;
        assert(step_spec(states[a], states[a + 1], replies[a], requests[a]));
        let b = a - 1;
        assert(step_spec(states[b], states[b + 1], replies[b], requests[b]));
        assert(target_verified_at(states, replies, requests, j, states[k].hwnd));
    }
}

/// With focus checks on, a run from the start sends keyboard input only to
/// the window `h` that the target resolved to uniquely, after that window
/// was restored and its activation verified; the input is requested right
/// after the foreground check of `h` answered `true` and the run was
/// confirmed to be still current.
pub proof fn input_only_into_the_verified_target(
    states: Seq<Sequencer>,
    replies: Seq<Reply>,
    requests: Seq<Request>,
    i: int,
)
    requires
        is_run(states, replies, requests),
        states[0].phase == Phase::Start,
        states[0].well_formed(),
        states[0].abort_on_focus_loss,
        0 <= i < requests.len(),
        is_input_request(requests[i]),
    ensures
        i >= 2,
        requests[i - 2] == (Request::IsForeground { hwnd: request_hwnd(requests[i]) }),
        replies[i - 1] == Reply::Foreground(true),
        replies[i] == Reply::Current(true),
        exists|j: int|
            j < i - 1 && #[trigger] target_verified_at(
                states,
                replies,
                requests,
                j,
                request_hwnd(requests[i]),
            ),
{
    assert(step_spec(states[i], states[i + 1], replies[i], requests[i]));
    let p = i - 1;
    assert(step_spec(states[p], states[p + 1], replies[p], requests[p]));
    lemma_policy_is_fixed(states, replies, requests, p);
    lemma_reached_states_are_well_formed(states, replies, requests, p);
    let q = p - 1;
    assert(step_spec(states[q], states[q + 1], replies[q], requests[q]));
    lemma_activated_target(states, replies, requests, i);
    let j = choose|j: int| j < i && #[trigger] target_verified_at(states, replies, requests, j, states[i].hwnd);
    assert(j != p);
}

/// With focus checks on, a delay of at least `FOCUS_RECHECK_DELAY_MS` is
/// followed by a foreground check of the target, and a `false` answer ends
/// the run with `TargetLostFocus`.
pub proof fn long_delay_is_followed_by_a_focus_check(
    states: Seq<Sequencer>,
    replies: Seq<Reply>,
    requests: Seq<Request>,
    i: int,
)
    requires
        is_run(states, replies, requests),
        0 <= i < replies.len(),
        states[i].phase == Phase::AwaitStep,
        states[i].abort_on_focus_loss,
        states[i].current() matches ActionView::Delay { milliseconds } && milliseconds
            >= FOCUS_RECHECK_DELAY_MS,
    ensures
        requests[i] == (Request::IsForeground { hwnd: states[i].hwnd }),
        i + 1 < replies.len() && replies[i + 1] == Reply::Foreground(false) ==> requests[i + 1]
            == (Request::Finished { result: Err::<String, AppError>(AppError::TargetLostFocus) }),
{
    assert(step_spec(states[i], states[i + 1], replies[i], requests[i]));
    assert(states[i].accepts(replies[i]));
    if i + 1 < replies.len() {
        let n = i + 1;
        assert(step_spec(states[n], states[n + 1], replies[n], requests[n]));
    }
}

/// The first failure ends a run: a failed activation or input is answered
/// by finishing with that error, and no step follows.
pub proof fn first_error_ends_the_run(
    states: Seq<Sequencer>,
    replies: Seq<Reply>,
    requests: Seq<Request>,
    i: int,
    e: AppError,
)
    requires
        is_run(states, replies, requests),
        0 <= i < replies.len(),
        replies[i] == Reply::Outcome(Err(e)),
    ensures
        requests[i] == (Request::Finished { result: Err::<String, AppError>(e) }),
        i == replies.len() - 1,
{
    assert(step_spec(states[i], states[i + 1], replies[i], requests[i]));
    if i + 1 < replies.len() {
        let n = i + 1;
        assert(states[n].accepts(replies[n]));
    }
}

impl Sequencer {
    /// After the current action completes: a delay is followed by a check
    /// that the run is still current, preceded (for a long delay with focus
    /// checks on) by a focus check; otherwise the next action begins.
    pub open spec fn completes(self, post: Sequencer, req: Request) -> bool {
        match self.current() {
            ActionView::Delay { milliseconds } => post.index == self.index && if self.abort_on_focus_loss
                && milliseconds >= FOCUS_RECHECK_DELAY_MS {
                post.phase == Phase::AwaitDelayCheck && req == Request::IsForeground {
                    hwnd: self.hwnd,
                }
            } else {
                post.phase == Phase::AwaitResume && req == Request::StillCurrent
            },
            _ => post.index == self.index + 1 && post.begins_action(req),
        }
    }
}

impl Sequencer {
    /// The actions of the task being run.
    pub open spec fn actions(&self) -> Seq<ActionView> {
        self.task.actions.deep_view()
    }

    /// The action being carried out.
    pub open spec fn current(&self) -> ActionView {
        self.actions()[self.index as int]
    }

    /// The state is one a run can reach.
    pub open spec fn well_formed(&self) -> bool {
        &&& self.index <= self.task.actions@.len()
        &&& (self.phase == Phase::AwaitFocusCheck || self.phase == Phase::AwaitReactivate
            || self.phase == Phase::AwaitCurrent || self.phase == Phase::AwaitStep || self.phase
            == Phase::AwaitDelayCheck || self.phase == Phase::AwaitResume) ==> self.index
            < self.task.actions@.len() && self.activated
        &&& (self.phase == Phase::AwaitFocusCheck || self.phase == Phase::AwaitReactivate
            || self.phase == Phase::AwaitCurrent) ==> is_input(self.current())
        &&& self.phase == Phase::AwaitReactivate ==> !self.abort_on_focus_loss
        &&& self.phase == Phase::AwaitDelayCheck ==> self.current() is Delay
            && self.abort_on_focus_loss
        &&& self.phase == Phase::AwaitResume ==> self.current() is Delay
        &&& (self.phase == Phase::Start || self.phase == Phase::AwaitCached || self.phase
            == Phase::AwaitWindows || self.phase == Phase::AwaitRestore || self.phase
            == Phase::AwaitActivate) ==> !self.activated
    }

    /// The kind of reply the current phase waits for.
    pub open spec fn accepts(&self, reply: Reply) -> bool {
        match self.phase {
            Phase::Start => reply is Start,
            Phase::AwaitCached => reply is Cached,
            Phase::AwaitWindows => reply is Windows,
            Phase::AwaitRestore => reply is Done,
            Phase::AwaitActivate => reply is Outcome,
            Phase::AwaitFocusCheck => reply is Foreground,
            Phase::AwaitReactivate => reply is Outcome,
            Phase::AwaitCurrent => reply is Current,
            Phase::AwaitDelayCheck => reply is Foreground,
            Phase::AwaitResume => reply is Current,
            Phase::AwaitStep => match self.current() {
                ActionView::RestoreTarget => reply is Done,
                ActionView::Delay { .. } => reply is Done,
                ActionView::Notify { .. } => reply is Done,
                _ => reply is Outcome,
            },
            Phase::Finished => false,
        }
    }

    /// `req` starts the action at `self.index`: after the last action the
    /// run finishes with the description; an input step first asks whether
    /// the target is still in the foreground; otherwise the action is carried
    /// out.
    pub open spec fn begins_action(&self, req: Request) -> bool {
        if self.index == self.task.actions@.len() {
            self.phase == Phase::Finished && (req matches Request::Finished { result: Ok(d) } && d@
                == self.description@)
        } else if is_input(self.current()) {
            self.phase == Phase::AwaitFocusCheck && req == Request::IsForeground { hwnd: self.hwnd }
        } else {
            self.phase == Phase::AwaitStep && performs(req, self.current(), self.hwnd)
        }
    }

    /// The run ends with `e`.
    pub open spec fn fails_with(&self, req: Request, e: AppError) -> bool {
        self.phase == Phase::Finished && req == Request::Finished {
            result: Err::<String, AppError>(e),
        }
    }

    /// A new run of `task` with the focus policy of `settings`.
    pub fn new(task: ScheduledTask, settings: &Settings) -> (s: Sequencer)
        ensures
            s.task == task,
            s.abort_on_focus_loss == settings.abort_on_focus_loss,
            s.phase == Phase::Start,
            s.index == 0,
            !s.activated,
            s.well_formed(),
    {
        Sequencer {
            task,
            abort_on_focus_loss: settings.abort_on_focus_loss,
            phase: Phase::Start,
            hwnd: 0,
            description: owned(""),
            index: 0,
            activated: false,
        }
    }

    fn finish(&mut self, e: AppError) -> (req: Request)
        ensures
            final(self).fails_with(req, e),
            final(self).task == old(self).task,
            final(self).index == old(self).index,
            final(self).activated == old(self).activated,
            final(self).abort_on_focus_loss == old(self).abort_on_focus_loss,
            final(self).hwnd == old(self).hwnd,
            final(self).description == old(self).description,
    {
        self.phase = Phase::Finished;
        Request::Finished { result: Err(e) }
    }

    fn perform(&mut self) -> (req: Request)
        requires
            old(self).index < old(self).task.actions@.len(),
        ensures
            performs(req, old(self).current(), old(self).hwnd),
            final(self).phase == Phase::AwaitStep,
            final(self).task == old(self).task,
            final(self).index == old(self).index,
            final(self).activated == old(self).activated,
            final(self).abort_on_focus_loss == old(self).abort_on_focus_loss,
            final(self).hwnd == old(self).hwnd,
            final(self).description == old(self).description,
    {
        self.phase = Phase::AwaitStep;
        let hwnd = self.hwnd;
        let i = self.index;
        proof {
            assert(self.task.actions.deep_view()[i as int] == self.task.actions@[i as int]@);
        }
        match &self.task.actions[i] {
            Action::FocusTarget => Request::Activate { hwnd },
            Action::RestoreTarget => Request::Restore { hwnd },
            Action::TypeText { text } => Request::TypeText { hwnd, text: text.clone() },
            Action::PressKey { key, count, interval_ms } => Request::PressKey {
                hwnd,
                key: *key,
                count: *count,
                interval_ms: *interval_ms,
            },
            Action::KeyCombination { keys } => {
                let k = keys.clone();
                proof {
                    assert(k@ =~= keys@);
                }
                Request::PressCombination { hwnd, keys: k }
            },
            Action::Delay { milliseconds } => {
                let ms = if *milliseconds <= 4294967295u64 {
                    *milliseconds
                } else {
                    4294967295u64
                };
                Request::Sleep { milliseconds: ms }
            },
            Action::Notify { message } => Request::Notify { message: message.clone() },
        }
    }

    fn begin(&mut self) -> (req: Request)
        requires
            old(self).index <= old(self).task.actions@.len(),
        ensures
            final(self).begins_action(req),
            final(self).task == old(self).task,
            final(self).index == old(self).index,
            final(self).activated == old(self).activated,
            final(self).abort_on_focus_loss == old(self).abort_on_focus_loss,
            final(self).hwnd == old(self).hwnd,
            final(self).description == old(self).description,
    {
        if self.index == self.task.actions.len() {
            self.phase = Phase::Finished;
            return Request::Finished { result: Ok(self.description.clone()) };
        }
        let input = action_is_input(&self.task.actions[self.index]);
        proof {
            assert(self.task.actions.deep_view()[self.index as int]
                == self.task.actions@[self.index as int]@);
        }
        if input {
            self.phase = Phase::AwaitFocusCheck;
            Request::IsForeground { hwnd: self.hwnd }
        } else {
            self.perform()
        }
    }

    fn resolved(&mut self, c: &WindowCandidate) -> (req: Request)
        ensures
            final(self).phase == Phase::AwaitRestore,
            req == (Request::Restore { hwnd: c.hwnd }),
            final(self).hwnd == c.hwnd,
            final(self).description@ == describe_text(*c),
            final(self).task == old(self).task,
            final(self).index == old(self).index,
            final(self).activated == old(self).activated,
            final(self).abort_on_focus_loss == old(self).abort_on_focus_loss,
    {
        self.hwnd = c.hwnd;
        self.description = describe(c);
        self.phase = Phase::AwaitRestore;
        Request::Restore { hwnd: c.hwnd }
    }

    fn enumerate(&mut self) -> (req: Request)
        ensures
            final(self).phase == Phase::AwaitWindows,
            req == Request::Enumerate,
            final(self).task == old(self).task,
            final(self).index == old(self).index,
            final(self).activated == old(self).activated,
            final(self).abort_on_focus_loss == old(self).abort_on_focus_loss,
            final(self).hwnd == old(self).hwnd,
            final(self).description == old(self).description,
    {
        self.phase = Phase::AwaitWindows;
        Request::Enumerate
    }

    /// Advance the run with the reply to the previous request and return the
    /// next request.
    ///
    /// Safety properties stated here: keyboard input is requested only after
    /// the initial activation of the resolved target was verified, only right
    /// after the run was confirmed to be still current, and that question is
    /// asked only right after the target's focus was confirmed; a failed
    /// activation or input, or focus loss with focus checks on, ends the run
    /// with that error; a run that is no longer current is cancelled;
    /// resolution that finds no window, several windows or an invalid title
    /// pattern ends the run before any input.
    pub fn step(&mut self, reply: Reply) -> (req: Request)
        requires
            old(self).well_formed(),
            old(self).accepts(reply),
        ensures
            step_spec(*old(self), *final(self), reply, req),
    {
        match reply {
            Reply::Start => self.on_start(),
            Reply::Cached(found) => self.on_cached(found),
            Reply::Windows(ws) => self.on_windows(ws),
            Reply::Done => self.on_done(),
            Reply::Outcome(result) => self.on_outcome(result),
            Reply::Foreground(is_foreground) => self.on_foreground(is_foreground),
            Reply::Current(current) => self.on_current(current),
        }
    }

    fn on_start(&mut self) -> (req: Request)
        requires
            old(self).well_formed(),
            old(self).phase == Phase::Start,
        ensures
            step_spec(*old(self), *final(self), Reply::Start, req),
    {
        match self.task.target.last_hwnd {
            Some(raw) => {
                self.phase = Phase::AwaitCached;
                Request::VerifyCached { hwnd: raw }
            },
            None => self.enumerate(),
        }
    }

    fn on_cached(&mut self, found: Option<WindowCandidate>) -> (req: Request)
        requires
            old(self).well_formed(),
            old(self).phase == Phase::AwaitCached,
        ensures
            step_spec(*old(self), *final(self), Reply::Cached(found), req),
    {
        if found.is_none() {
            self.task.target.last_hwnd = None;
        }
        self.enumerate()
    }

    fn on_windows(&mut self, ws: Vec<WindowCandidate>) -> (req: Request)
        requires
            old(self).well_formed(),
            old(self).phase == Phase::AwaitWindows,
        ensures
            step_spec(*old(self), *final(self), Reply::Windows(ws), req),
    {
        let found = resolve_target(ws.as_slice(), &self.task.target);
        proof {
            lemma_single_match_of_resolution(ws@, self.task.target, found);
        }
        match found {
            Ok(c) => {
                self.task.target.last_hwnd = Some(c.hwnd);
                self.resolved(&c)
            },
            Err(e) => self.finish(e),
        }
    }

    fn on_done(&mut self) -> (req: Request)
        requires
            old(self).well_formed(),
            old(self).accepts(Reply::Done),
        ensures
            step_spec(*old(self), *final(self), Reply::Done, req),
    {
        if self.phase == Phase::AwaitRestore {
            self.phase = Phase::AwaitActivate;
            return Request::Activate { hwnd: self.hwnd };
        }
        self.complete_action()
    }

    fn on_outcome(&mut self, result: AppResult<()>) -> (req: Request)
        requires
            old(self).well_formed(),
            old(self).accepts(Reply::Outcome(result)),
        ensures
            step_spec(*old(self), *final(self), Reply::Outcome(result), req),
    {
        match result {
            Err(e) => self.finish(e),
            Ok(u) => {
                assert(result == Ok::<(), AppError>(u));
                if self.phase == Phase::AwaitActivate {
                    self.activated = true;
                    self.index = 0;
                    self.begin()
                } else if self.phase == Phase::AwaitReactivate {
                    self.phase = Phase::AwaitCurrent;
                    Request::StillCurrent
                } else {
                    self.complete_action()
                }
            },
        }
    }

    fn on_foreground(&mut self, is_foreground: bool) -> (req: Request)
        requires
            old(self).well_formed(),
            old(self).accepts(Reply::Foreground(is_foreground)),
        ensures
            step_spec(*old(self), *final(self), Reply::Foreground(is_foreground), req),
    {
        if self.phase == Phase::AwaitFocusCheck {
            if is_foreground {
                self.phase = Phase::AwaitCurrent;
                Request::StillCurrent
            } else if self.abort_on_focus_loss {
                self.finish(AppError::TargetLostFocus)
            } else {
                self.phase = Phase::AwaitReactivate;
                Request::Activate { hwnd: self.hwnd }
            }
        } else if is_foreground {
            self.phase = Phase::AwaitResume;
            Request::StillCurrent
        } else {
            self.finish(AppError::TargetLostFocus)
        }
    }

    fn on_current(&mut self, current: bool) -> (req: Request)
        requires
            old(self).well_formed(),
            old(self).accepts(Reply::Current(current)),
        ensures
            step_spec(*old(self), *final(self), Reply::Current(current), req),
    {
        if !current {
            return self.finish(AppError::ExecutionCancelled);
        }
        if self.phase == Phase::AwaitCurrent {
            self.perform()
        } else {
            let n = self.task.actions.len();
            proof {
                assert(self.index < n);
            }
            self.index = self.index + 1;
            self.begin()
        }
    }

    /// The current action completed: after a delay, re-check focus (long
    /// delay, focus checks on) or ask whether the run is still current;
    /// otherwise move on to the next action.
    fn complete_action(&mut self) -> (req: Request)
        requires
            old(self).phase == Phase::AwaitStep,
            old(self).well_formed(),
        ensures
            old(self).completes(*final(self), req),
            final(self).task == old(self).task,
            final(self).activated == old(self).activated,
            final(self).abort_on_focus_loss == old(self).abort_on_focus_loss,
            final(self).hwnd == old(self).hwnd,
            final(self).description == old(self).description,
    {
        let i = self.index;
        let n = self.task.actions.len();
        proof {
            assert(i < n);
            assert(self.task.actions.deep_view()[i as int] == self.task.actions@[i as int]@);
        }
        match &self.task.actions[i] {
            Action::Delay { milliseconds } => {
                if self.abort_on_focus_loss && *milliseconds >= FOCUS_RECHECK_DELAY_MS {
                    self.phase = Phase::AwaitDelayCheck;
                    Request::IsForeground { hwnd: self.hwnd }
                } else {
                    self.phase = Phase::AwaitResume;
                    Request::StillCurrent
                }
            },
            _ => {
                self.index = i + 1;
                self.begin()
            },
        }
    }
}

fn action_is_input(a: &Action) -> (r: bool)
    ensures
        r == is_input(a@),
{
    match a {
        Action::TypeText { .. } | Action::PressKey { .. } | Action::KeyCombination { .. } => true,
        _ => false,
    }
}

/// `title (process, PID n)` for a resolved window.
pub fn describe(c: &WindowCandidate) -> (r: String)
    ensures
        r@ == describe_text(*c),
{
    let mut s = c.title.clone();
    s.append(" (");
    s.append(c.process_name.as_str());
    s.append(", PID ");
    s.append(format_u64(c.process_id as u64).as_str());
    s.append(")");
    s
}

proof fn lemma_single_match_of_resolution(
    cands: Seq<WindowCandidate>,
    t: WindowTarget,
    r: AppResult<WindowCandidate>,
)
    requires
        resolution_allows(cands, t, r),
    ensures
        r matches Ok(c) ==> single_match(cands, t) == Some(c),
        r is Err ==> single_match(cands, t) is None,
        single_match(cands, t) matches Some(c) ==> r == Ok::<WindowCandidate, AppError>(c),
{
}

// ---------------------------------------------------------------------------
// Results of a run
// ---------------------------------------------------------------------------

/// How a run's result is recorded: success, or the error's code and message.
pub open spec fn outcome_of(result: AppResult<String>, o: ExecutionOutcome) -> bool {
    match result {
        Ok(_) => o == ExecutionOutcome::Success,
        Err(e) => o matches ExecutionOutcome::Failure { error_code, error_message }
            && error_code@ == e.code_text() && error_message@ == e.message_text(),
    }
}

/// The outcome recorded for the result of a run.
pub fn outcome_for(result: &AppResult<String>) -> (o: ExecutionOutcome)
    ensures
        outcome_of(*result, o),
{
    match result {
        Ok(_) => ExecutionOutcome::Success,
        Err(e) => ExecutionOutcome::Failure { error_code: owned(e.code()), error_message: e.message() },
    }
}

/// The outcome of a run and the target description recorded with it: the
/// resolved window's description on success; otherwise "resolved target"
/// when the task has a cached window handle and "unresolved target" when not.
pub fn finish_run(task: &ScheduledTask, result: &AppResult<String>) -> (r: (
    ExecutionOutcome,
    String,
))
    ensures
        outcome_of(*result, r.0),
        match result {
            Ok(d) => r.1@ == d@,
            Err(_) => r.1@ == (if task.target.last_hwnd is Some {
                "resolved target"@
            } else {
                "unresolved target"@
            }),
        },
{
    let outcome = outcome_for(result);
    let description = match result {
        Ok(d) => d.clone(),
        Err(_) => if task.target.last_hwnd.is_some() {
            owned("resolved target")
        } else {
            owned("unresolved target")
        },
    };
    (outcome, description)
}

/// The instant a run is recorded as due: for a scheduled run, the instant
/// its occurrence was due (its `next_run_at` before it was re-armed), so the
/// original due time is kept; for a manual run (no `due`), the task's
/// `next_run_at`, or the start of the run when it has none.
pub fn run_scheduled_at(due: Option<UtcTime>, next_run_at: Option<UtcTime>, started_at: UtcTime) -> (r:
    UtcTime)
    ensures
        r == match due {
            Some(d) => d,
            None => match next_run_at {
                Some(n) => n,
                None => started_at,
            },
        },
{
    match due {
        Some(d) => d,
        None => match next_run_at {
            Some(n) => n,
            None => started_at,
        },
    }
}

/// A history record for a finished run. The record gets a fresh random id
/// and the current time as its finishing time.
pub fn history_record(
    task: &ScheduledTask,
    scheduled_at: UtcTime,
    started_at: UtcTime,
    target_description: &str,
    outcome: ExecutionOutcome,
) -> (r: HistoryRecord)
    ensures
        r.task_id == task.id,
        r.task_name@ == task.name@,
        r.scheduled_at == scheduled_at,
        r.started_at == started_at,
        r.finished_at.valid(),
        r.target_description@ == target_description@,
        r.outcome == outcome,
{
    HistoryRecord {
        id: new_task_id(),
        task_id: task.id,
        task_name: task.name.clone(),
        scheduled_at,
        started_at,
        finished_at: utc_now(),
        target_description: owned(target_description),
        outcome,
    }
}

/// The record of a run that never reached the desktop (the task was
/// disabled, or another run was going on): the error as its outcome and
/// "unresolved target" as its target.
pub fn refused_run_record(
    task: &ScheduledTask,
    scheduled_at: UtcTime,
    started_at: UtcTime,
    error: &AppError,
) -> (r: HistoryRecord)
    ensures
        r.task_id == task.id,
        r.task_name@ == task.name@,
        r.scheduled_at == scheduled_at,
        r.started_at == started_at,
        r.finished_at.valid(),
        r.target_description@ == "unresolved target"@,
        r.outcome matches ExecutionOutcome::Failure { error_code, error_message }
            && error_code@ == error.code_text() && error_message@ == error.message_text(),
{
    let outcome = ExecutionOutcome::Failure {
        error_code: owned(error.code()),
        error_message: error.message(),
    };
    history_record(task, scheduled_at, started_at, "unresolved target", outcome)
}

/// The text of the notification after a run: the task's name, then that the
/// sequence was sent or what went wrong.
pub open spec fn notice_text(task_name: Seq<char>, outcome: ExecutionOutcome) -> Seq<char> {
    match outcome {
        ExecutionOutcome::Success => task_name + ": keyboard sequence sent."@,
        ExecutionOutcome::Failure { error_message, .. } => task_name + ": "@ + error_message@,
    }
}

/// The notification shown after a run, if the settings ask for one:
/// successes when `notify_on_success` is set, failures when
/// `notify_on_failure` is.
pub fn completion_notice(settings: &Settings, task_name: &str, outcome: &ExecutionOutcome) -> (r:
    Option<String>)
    ensures
        r is Some <==> (if *outcome is Success {
            settings.notify_on_success
        } else {
            settings.notify_on_failure
        }),
        r matches Some(body) ==> body@ == notice_text(task_name@, *outcome),
{
    match outcome {
        ExecutionOutcome::Success => {
            if settings.notify_on_success {
                Some(join2(task_name, ": keyboard sequence sent."))
            } else {
                None
            }
        },
        ExecutionOutcome::Failure { error_message, .. } => {
            if settings.notify_on_failure {
                Some(join3(task_name, ": ", error_message.as_str()))
            } else {
                None
            }
        },
    }
}

impl Sequencer {
    /// Start a run of `task`: a disabled task does not run.
    pub fn start(task: ScheduledTask, settings: &Settings) -> (r: AppResult<Sequencer>)
        ensures
            !task.enabled ==> r == Err::<Sequencer, AppError>(AppError::TaskDisabled),
            task.enabled ==> (r matches Ok(s) && s.task == task && s.abort_on_focus_loss
                == settings.abort_on_focus_loss && s.phase == Phase::Start && s.index == 0
                && !s.activated && s.well_formed()),
    {
        if !task.enabled {
            return Err(AppError::TaskDisabled);
        }
        Ok(Sequencer::new(task, settings))
    }
}

} // verus!
