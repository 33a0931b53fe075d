//! Window snapshots as the Windows backend takes them from the system: the
//! system is queried outside the library; these functions decide on what
//! it reports.

use vstd::prelude::*;

use crate::error::{AppError, AppResult};
use crate::model::target::WindowCandidate;
use crate::platform::matching::{image_file_name, last_component};

verus! {

/// The candidate for a visible top-level window, from its handle, the length
/// the system reports for its title, its title, its process id and the image
/// path of its process (when it could be queried). Windows without a title
/// or without a process are never useful targets.
pub fn candidate_for(
    hwnd: u64,
    title_len: i32,
    title: String,
    process_id: u32,
    image_path: Option<String>,
) -> (r: Option<WindowCandidate>)
    ensures
        r is None <==> title_len <= 0 || process_id == 0,
        r matches Some(c) ==> {
            &&& c.hwnd == hwnd
            &&& c.title == title
            &&& c.process_id == process_id
            &&& c.executable_path == image_path
            &&& c.is_visible
            &&& c.process_name@ == match image_path {
                Some(p) => last_component(p@),
                None => Seq::empty(),
            }
        },
{
    if title_len <= 0 || process_id == 0 {
        return None;
    }
    let process_name = match &image_path {
        Some(p) => image_file_name(p.as_str()),
        None => String::new(),
    };
    Some(WindowCandidate {
        hwnd,
        title,
        process_id,
        process_name,
        executable_path: image_path,
        is_visible: true,
    })
}

/// How long to wait (milliseconds) after the `attempt`-th request to bring a
/// window to the foreground before checking it, counting from zero; `None`
/// once the five attempts are used up. The waits grow, since focus changes
/// are asynchronous and the system may refuse the first requests.
pub fn activation_wait_ms(attempt: u32) -> (r: Option<u64>)
    ensures
        attempt < 5 ==> r == Some((50 * (attempt + 1)) as u64),
        attempt >= 5 ==> r is None,
{
    if attempt < 5 {
        Some(50 * (attempt as u64 + 1))
    } else {
        None
    }
}

/// Before any attempt to activate a window: it must still exist and be visible.
pub fn activation_precheck(is_window: bool, is_visible: bool) -> (r: AppResult<()>)
    ensures
        !is_window ==> r == Err::<(), AppError>(AppError::TargetNotFound),
        is_window && !is_visible ==> r == Err::<(), AppError>(AppError::TargetNotVisible),
        is_window && is_visible ==> r is Ok,
{
    if !is_window {
        return Err(AppError::TargetNotFound);
    }
    if !is_visible {
        return Err(AppError::TargetNotVisible);
    }
    Ok(())
}

} // verus!
