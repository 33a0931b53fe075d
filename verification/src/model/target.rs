//! Window target model. The persisted identity is rich, never just a window
//! handle, which can be invalidated or recycled.

use vstd::prelude::*;

verus! {

/// How the persisted title criterion is applied during matching.
#[derive(Debug, Clone, Copy, PartialEq, Eq, Structural)]
pub enum TitleMatchMode {
    /// Title must equal the criterion exactly.
    Exact,
    /// Title must contain the criterion (case-insensitive).
    Contains,
    /// Title must match the criterion as a regular expression.
    Regex,
    /// Any window of the matched process qualifies (title ignored).
    Any,
}

impl Default for TitleMatchMode {
    fn default() -> (r: Self)
        ensures
            r == TitleMatchMode::Contains,
    {
        TitleMatchMode::Contains
    }
}

/// Identity of the window a task acts on.
#[derive(Debug, PartialEq, Eq)]
pub struct WindowTarget {
    /// Last known window handle; a cache hint only, always re-verified.
    pub last_hwnd: Option<u64>,
    pub process_id: Option<u32>,
    pub executable_path: Option<String>,
    pub process_name: Option<String>,
    pub title: Option<String>,
    pub title_match_mode: TitleMatchMode,
}

impl Clone for WindowTarget {
    fn clone(&self) -> (r: Self)
        ensures
            r == *self,
    {
        WindowTarget {
            last_hwnd: self.last_hwnd,
            process_id: self.process_id,
            executable_path: self.executable_path.clone(),
            process_name: self.process_name.clone(),
            title: self.title.clone(),
            title_match_mode: self.title_match_mode,
        }
    }
}

impl Default for WindowTarget {
    fn default() -> (r: Self)
        ensures
            r.last_hwnd is None,
            r.process_id is None,
            r.executable_path is None,
            r.process_name is None,
            r.title is None,
            r.title_match_mode == TitleMatchMode::Contains,
    {
        WindowTarget {
            last_hwnd: None,
            process_id: None,
            executable_path: None,
            process_name: None,
            title: None,
            title_match_mode: TitleMatchMode::Contains,
        }
    }
}

/// A candidate window as produced by enumeration and consumed by matching:
/// plain data, no platform handles.
#[derive(Debug, PartialEq, Eq)]
pub struct WindowCandidate {
    pub hwnd: u64,
    pub title: String,
    pub process_id: u32,
    pub process_name: String,
    pub executable_path: Option<String>,
    pub is_visible: bool,
}

impl Clone for WindowCandidate {
    fn clone(&self) -> (r: Self)
        ensures
            r == *self,
    {
        WindowCandidate {
            hwnd: self.hwnd,
            title: self.title.clone(),
            process_id: self.process_id,
            process_name: self.process_name.clone(),
            executable_path: self.executable_path.clone(),
            is_visible: self.is_visible,
        }
    }
}

} // verus!
