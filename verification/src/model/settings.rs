//! Application settings.

use vstd::prelude::*;

use super::schedule::MisfirePolicy;

verus! {

/// UI colour theme.
#[derive(Debug, Clone, Copy, PartialEq, Eq, Structural)]
pub enum Theme {
    System,
    Light,
    Dark,
}

/// UI language. `System` follows the OS locale at startup.
#[derive(Debug, Clone, Copy, PartialEq, Eq, Structural)]
pub enum Language {
    System,
    En,
    Zh,
}

/// Persisted user settings.
#[derive(Debug, Clone, Copy, PartialEq, Eq, Structural)]
pub struct Settings {
    pub theme: Theme,
    /// UI language (English or Simplified Chinese).
    pub language: Language,
    /// Notify on successful executions.
    pub notify_on_success: bool,
    /// Notify on failed executions.
    pub notify_on_failure: bool,
    /// Start with the desktop session.
    pub start_with_windows: bool,
    /// Start with the main window hidden.
    pub start_minimized: bool,
    /// Default misfire policy offered for new tasks.
    pub default_misfire_policy: MisfirePolicy,
    /// Maximum number of history records retained.
    pub history_limit: u32,
    /// Abort a running sequence if the target loses focus (recommended).
    pub abort_on_focus_loss: bool,
}

impl Settings {
    /// The settings a fresh installation starts with.
    pub open spec fn defaults() -> Settings {
        Settings {
            theme: Theme::System,
            language: Language::System,
            notify_on_success: true,
            notify_on_failure: true,
            start_with_windows: false,
            start_minimized: false,
            default_misfire_policy: MisfirePolicy::RunImmediately,
            history_limit: 1000,
            abort_on_focus_loss: true,
        }
    }
}

impl Default for Settings {
    fn default() -> (r: Self)
        ensures
            r == Settings::defaults(),
    {
        Settings {
            theme: Theme::System,
            language: Language::System,
            notify_on_success: true,
            notify_on_failure: true,
            start_with_windows: false,
            start_minimized: false,
            default_misfire_policy: MisfirePolicy::RunImmediately,
            history_limit: 1000,
            abort_on_focus_loss: true,
        }
    }
}

} // verus!
