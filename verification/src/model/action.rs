//! Action model: a generic, ordered sequence of automation steps.

use vstd::prelude::*;

use super::key::Key;
use crate::error::{AppError, AppResult};
use crate::text::{chars_of, owned};

verus! {

/// One step in an automation sequence. Actions execute strictly in order.
#[derive(Debug, PartialEq, Eq)]
pub enum Action {
    /// Bring the resolved target window to the foreground.
    FocusTarget,
    /// Restore the target window if it is minimized.
    RestoreTarget,
    /// Type arbitrary Unicode text via keyboard events.
    TypeText { text: String },
    /// Press a key one or more times with an interval between presses.
    PressKey { key: Key, count: u32, interval_ms: u64 },
    /// Press a key combination (e.g. Ctrl+C) with press-and-hold semantics.
    KeyCombination { keys: Vec<Key> },
    /// Wait for the given duration.
    Delay { milliseconds: u64 },
    /// Show a desktop notification.
    Notify { message: String },
}

/// What an action stands for, with its text and keys as sequences.
pub ghost enum ActionView {
    FocusTarget,
    RestoreTarget,
    TypeText { text: Seq<char> },
    PressKey { key: Key, count: u32, interval_ms: u64 },
    KeyCombination { keys: Seq<Key> },
    Delay { milliseconds: u64 },
    Notify { message: Seq<char> },
}

impl View for Action {
    type V = ActionView;

    open spec fn view(&self) -> ActionView {
        match self {
            Action::FocusTarget => ActionView::FocusTarget,
            Action::RestoreTarget => ActionView::RestoreTarget,
            Action::TypeText { text } => ActionView::TypeText { text: text@ },
            Action::PressKey { key, count, interval_ms } => ActionView::PressKey {
                key: *key,
                count: *count,
                interval_ms: *interval_ms,
            },
            Action::KeyCombination { keys } => ActionView::KeyCombination { keys: keys@ },
            Action::Delay { milliseconds } => ActionView::Delay { milliseconds: *milliseconds },
            Action::Notify { message } => ActionView::Notify { message: message@ },
        }
    }
}

impl DeepView for Action {
    type V = ActionView;

    open spec fn deep_view(&self) -> ActionView {
        self@
    }
}

impl Clone for Action {
    fn clone(&self) -> (r: Self)
        ensures
            r@ == self@,
    {
        match self {
            Action::FocusTarget => Action::FocusTarget,
            Action::RestoreTarget => Action::RestoreTarget,
            Action::TypeText { text } => Action::TypeText { text: text.clone() },
            Action::PressKey { key, count, interval_ms } => Action::PressKey {
                key: *key,
                count: *count,
                interval_ms: *interval_ms,
            },
            Action::KeyCombination { keys } => {
                let k = keys.clone();
                proof {
                    assert(k@ =~= keys@);
                }
                Action::KeyCombination { keys: k }
            },
            Action::Delay { milliseconds } => Action::Delay { milliseconds: *milliseconds },
            Action::Notify { message } => Action::Notify { message: message.clone() },
        }
    }
}

/// A copy of a list of actions.
pub fn clone_actions(actions: &Vec<Action>) -> (r: Vec<Action>)
    ensures
        r.deep_view() == actions.deep_view(),
{
    let mut r: Vec<Action> = Vec::new();
    let mut i: usize = 0;
    while i < actions.len()
        invariant
            i <= actions.len(),
            r.len() == i,
            forall|k: int| 0 <= k < i ==> #[trigger] r@[k]@ == actions@[k]@,
        decreases actions.len() - i,
    {
        r.push(actions[i].clone());
        i = i + 1;
    }
    proof {
        assert(r.deep_view() =~= actions.deep_view());
    }
    r
}

/// `char::is_control`: the character is in the Unicode general category
/// `Cc` (U+0000 to U+001F and U+007F to U+009F).
pub open spec fn is_control(c: char) -> bool {
    (c as u32) <= 0x1F || (0x7F <= (c as u32) && (c as u32) <= 0x9F)
}

/// The action can be carried out as given: text to type holds no control
/// characters (a newline would submit the input on its own).
pub open spec fn action_valid(a: ActionView) -> bool {
    match a {
        ActionView::TypeText { text } => text_free_of_controls(text),
        _ => true,
    }
}

/// The text holds no control character.
pub open spec fn text_free_of_controls(text: Seq<char>) -> bool {
    forall|j: int| 0 <= j < text.len() ==> !is_control(#[trigger] text[j])
}

/// Every action of the list can be carried out as given.
pub open spec fn actions_valid(actions: Seq<ActionView>) -> bool {
    forall|i: int| 0 <= i < actions.len() ==> action_valid(#[trigger] actions[i])
}

/// The message of text with a control character.
pub open spec fn control_text_message() -> Seq<char> {
    "text to type must not contain control characters"@
}

fn text_valid(text: &str) -> (r: bool)
    ensures
        r == text_free_of_controls(text@),
{
    let chars = chars_of(text);
    let mut i: usize = 0;
    while i < chars.len()
        invariant
            i <= chars.len(),
            chars@ == text@,
            forall|j: int| 0 <= j < i ==> !is_control(#[trigger] chars@[j]),
        decreases chars.len() - i,
    {
        let v = chars[i] as u32;
        if v <= 0x1F || (0x7F <= v && v <= 0x9F) {
            return false;
        }
        i = i + 1;
    }
    true
}

/// Check the actions of a task: text to type must hold no control
/// characters. Counts, intervals and delays are not bounded here: a count of
/// zero presses nothing, and a delay is capped at `u32::MAX` milliseconds
/// when it runs.
pub fn validate_actions(actions: &Vec<Action>) -> (r: AppResult<()>)
    ensures
        r is Ok <==> actions_valid(actions.deep_view()),
        r matches Err(e) ==> (e matches AppError::InvalidAction(m) && m@ == control_text_message()),
{
    let mut i: usize = 0;
    while i < actions.len()
        invariant
            i <= actions.len(),
            forall|k: int| 0 <= k < i ==> action_valid(#[trigger] actions.deep_view()[k]),
        decreases actions.len() - i,
    {
        proof {
            assert(actions.deep_view()[i as int] == actions@[i as int]@);
        }
        match &actions[i] {
            Action::TypeText { text } => {
                let t = text.as_str();
                if !text_valid(t) {
                    proof {
                        assert(actions@[i as int]@ == ActionView::TypeText { text: text@ });
                    }
                    return Err(
                        AppError::InvalidAction(
                            owned("text to type must not contain control characters"),
                        ),
                    );
                }
            },
            _ => {},
        }
        i = i + 1;
    }
    Ok(())
}

} // verus!
