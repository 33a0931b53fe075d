//! Built-in action-sequence presets. Presets are pure data; the executor
//! knows nothing about them.

use vstd::prelude::*;

use super::action::{Action, ActionView};
use super::key::Key;
use crate::text::owned;

verus! {

/// Identifier for a built-in preset.
#[derive(Debug, Clone, Copy, PartialEq, Eq, Structural)]
pub enum Preset {
    /// Focus, "continue", Enter.
    Continue,
    /// Focus, "continue", Enter, wait, Enter.
    ContinueConfirm,
    /// Focus, Enter, wait, "continue", Enter.
    ConfirmContinue,
    /// Focus, Enter, wait, Enter.
    DoubleEnter,
    /// Focus, Enter.
    EmptySubmit,
}

/// One press of Enter.
pub open spec fn is_enter(a: ActionView) -> bool {
    a == ActionView::PressKey { key: Key::Enter, count: 1, interval_ms: 0 }
}

/// Typing the text "continue".
pub open spec fn is_continue_text(a: ActionView) -> bool {
    a == ActionView::TypeText { text: "continue"@ }
}

/// A wait of `ms` milliseconds.
pub open spec fn is_delay(a: ActionView, ms: u64) -> bool {
    a == ActionView::Delay { milliseconds: ms }
}

impl Preset {
    /// All presets, in menu order.
    pub const ALL: [Preset; 5] = [
        Preset::Continue,
        Preset::ContinueConfirm,
        Preset::ConfirmContinue,
        Preset::DoubleEnter,
        Preset::EmptySubmit,
    ];

    /// The UI name of a preset.
    pub open spec fn name_text(self) -> Seq<char> {
        match self {
            Preset::Continue => "Continue"@,
            Preset::ContinueConfirm => "Continue + Confirm"@,
            Preset::ConfirmContinue => "Confirm + Continue"@,
            Preset::DoubleEnter => "Double Enter"@,
            Preset::EmptySubmit => "Empty Submit"@,
        }
    }

    /// The sequence a preset expands to, `confirm_delay_ms` being the wait
    /// between the two key presses of the presets that press twice.
    pub open spec fn expands_to(self, confirm_delay_ms: u64, s: Seq<ActionView>) -> bool {
        match self {
            Preset::Continue => s.len() == 3 && s[0] == ActionView::FocusTarget && is_continue_text(s[1])
                && is_enter(s[2]),
            Preset::ContinueConfirm => s.len() == 5 && s[0] == ActionView::FocusTarget
                && is_continue_text(s[1]) && is_enter(s[2]) && is_delay(s[3], confirm_delay_ms)
                && is_enter(s[4]),
            Preset::ConfirmContinue => s.len() == 5 && s[0] == ActionView::FocusTarget && is_enter(s[1])
                && is_delay(s[2], confirm_delay_ms) && is_continue_text(s[3]) && is_enter(s[4]),
            Preset::DoubleEnter => s.len() == 4 && s[0] == ActionView::FocusTarget && is_enter(s[1])
                && is_delay(s[2], confirm_delay_ms) && is_enter(s[3]),
            Preset::EmptySubmit => s.len() == 2 && s[0] == ActionView::FocusTarget && is_enter(s[1]),
        }
    }

    /// Human-readable name for the UI.
    pub fn display_name(&self) -> (r: &'static str)
        ensures
            r@ == self.name_text(),
    {
        match self {
            Preset::Continue => "Continue",
            Preset::ContinueConfirm => "Continue + Confirm",
            Preset::ConfirmContinue => "Confirm + Continue",
            Preset::DoubleEnter => "Double Enter",
            Preset::EmptySubmit => "Empty Submit",
        }
    }

    /// The default preset for quick creation: a single Enter after
    /// "continue"; a second, confirming Enter is an explicit choice.
    pub fn default_preset() -> (r: Preset)
        ensures
            r == Preset::Continue,
    {
        Preset::Continue
    }

    /// Build the ordered action list for this preset.
    pub fn actions(&self, confirm_delay_ms: u64) -> (r: Vec<Action>)
        ensures
            self.expands_to(confirm_delay_ms, r.deep_view()),
            r@.len() > 0 && r@[0]@ == ActionView::FocusTarget,
    {
        let mut v: Vec<Action> = Vec::new();
        v.push(Action::FocusTarget);
        match self {
            Preset::Continue => {
                v.push(Action::TypeText { text: owned("continue") });
                v.push(enter());
            },
            Preset::ContinueConfirm => {
                v.push(Action::TypeText { text: owned("continue") });
                v.push(enter());
                v.push(Action::Delay { milliseconds: confirm_delay_ms });
                v.push(enter());
            },
            Preset::ConfirmContinue => {
                v.push(enter());
                v.push(Action::Delay { milliseconds: confirm_delay_ms });
                v.push(Action::TypeText { text: owned("continue") });
                v.push(enter());
            },
            Preset::DoubleEnter => {
                v.push(enter());
                v.push(Action::Delay { milliseconds: confirm_delay_ms });
                v.push(enter());
            },
            Preset::EmptySubmit => {
                v.push(enter());
            },
        }
        proof {
            let d = v.deep_view();
            assert(d.len() == v@.len());
        }
        v
    }
}

fn enter() -> (a: Action)
    ensures
        is_enter(a@),
{
    Action::PressKey { key: Key::Enter, count: 1, interval_ms: 0 }
}

} // verus!
