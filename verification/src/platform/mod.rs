//! Window handling: matching candidates against a target, and the rules of
//! the desktop backends (Windows key events and window snapshots, X11 key
//! names and checks, System Events key codes and replies).

pub mod input;
pub mod matching;
pub mod system_events;
pub mod windows;
pub mod x11;
