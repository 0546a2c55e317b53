//! The decisions of the workbench commands: which window a capture takes,
//! which thumbnail requests are refused, and the shapes of their replies.

use vstd::prelude::*;

use crate::thumbnail::ThumbnailSourceSize;
use crate::windows_list;

verus! {

/// A rectangle as the workbench page receives it.
#[derive(PartialEq, Eq, Structural, Clone, Copy, Debug)]
pub struct RectInfo {
    pub left: i32,
    pub top: i32,
    pub right: i32,
    pub bottom: i32,
}

/// A capturable window as the workbench page receives it.
pub struct WindowInfo {
    pub hwnd: isize,
    pub title: String,
    pub exe_path: String,
    pub class_name: String,
    pub is_compatible: bool,
    pub incompatibility_reason: Option<String>,
    pub pid: u32,
    pub rect: RectInfo,
}

/// The reply to adding a thumbnail panel.
pub struct AddThumbnailResult {
    pub panel_id: String,
    pub source_width: i32,
    pub source_height: i32,
}

/// The reply for a window of the capture list, field by field.
pub fn to_window_info(w: windows_list::WindowInfo) -> (r: WindowInfo)
    ensures
        r.hwnd == w.hwnd,
        r.title@ == w.title@,
        r.exe_path@ == w.exe_path@,
        r.class_name@ == w.class_name@,
        r.is_compatible == w.is_compatible,
        r.incompatibility_reason == w.incompatibility_reason,
        r.pid == w.pid,
        r.rect == (RectInfo { left: w.rect.left, top: w.rect.top, right: w.rect.right, bottom: w.rect.bottom }),
{
    WindowInfo {
        hwnd: w.hwnd,
        title: w.title,
        exe_path: w.exe_path,
        class_name: w.class_name,
        is_compatible: w.is_compatible,
        incompatibility_reason: w.incompatibility_reason,
        pid: w.pid,
        rect: RectInfo { left: w.rect.left, top: w.rect.top, right: w.rect.right, bottom: w.rect.bottom },
    }
}

/// The first window of `windows` with handle `hwnd`.
pub fn find_window(windows: &Vec<windows_list::WindowInfo>, hwnd: isize) -> (r: Option<usize>)
    ensures
        match r {
            Some(i) => i < windows@.len() && windows@[i as int].hwnd == hwnd
                && forall|j: int| 0 <= j < i ==> windows@[j].hwnd != hwnd,
            None => forall|j: int| 0 <= j < windows@.len() ==> windows@[j].hwnd != hwnd,
        },
{
    let mut i: usize = 0;
    while i < windows.len()
        invariant
            i <= windows@.len(),
            forall|j: int| 0 <= j < i ==> windows@[j].hwnd != hwnd,
        decreases windows@.len() - i,
    {
        if windows[i].hwnd == hwnd {
            return Some(i);
        }
        i = i + 1;
    }
    None
}

/// The reason shown for an incompatible window.
pub open spec fn reason_text(reason: Option<Seq<char>>) -> Seq<char> {
    match reason {
        Some(r) => r,
        None => "Unknown reason"@,
    }
}

fn reason_of(reason: &Option<String>) -> (r: &str)
    ensures
        r@ == reason_text(match reason { Some(s) => Some(s@), None => None }),
{
    match reason {
        Some(s) => s.as_str(),
        None => "Unknown reason",
    }
}

/// Checks a thumbnail request against the workbench window: a null source or
/// the workbench itself is refused.
pub fn check_thumbnail_source(source_hwnd: isize, dest_hwnd: isize) -> (r: Result<(), String>)
    ensures
        source_hwnd == 0 ==> (r matches Err(e) && e@ == "Source HWND is invalid"@),
        source_hwnd != 0 && source_hwnd == dest_hwnd ==> (r matches Err(e)
            && e@ == "Cannot capture the workbench window itself"@),
        source_hwnd != 0 && source_hwnd != dest_hwnd ==> r is Ok,
{
    if source_hwnd == 0 {
        return Err("Source HWND is invalid".to_owned());
    }
    if source_hwnd == dest_hwnd {
        return Err("Cannot capture the workbench window itself".to_owned());
    }
    Ok(())
}

/// The reply to an added thumbnail panel.
pub fn add_thumbnail_result(panel_id: String, size: ThumbnailSourceSize) -> (r: AddThumbnailResult)
    ensures
        r.panel_id == panel_id,
        r.source_width == size.width,
        r.source_height == size.height,
{
    AddThumbnailResult { panel_id, source_width: size.width, source_height: size.height }
}

/// The window a focus capture considers: the focused window, unless there is
/// none or it is the workbench itself.
pub fn capture_candidate(focused: Option<isize>, workbench_hwnd: isize) -> (r: Option<isize>)
    ensures
        r == (match focused {
            Some(h) => if h == workbench_hwnd { None } else { Some(h) },
            None => None,
        }),
{
    match focused {
        Some(h) => if h == workbench_hwnd { None } else { Some(h) },
        None => None,
    }
}

/// The capture of window `hwnd` (`wb_capture_focused_window`): refused when
/// the window is not in the capture list or cannot be captured.
pub fn choose_focused_window(hwnd: isize, windows: Vec<windows_list::WindowInfo>) -> (r: Result<WindowInfo, String>)
    ensures
        (forall|j: int| 0 <= j < windows@.len() ==> windows@[j].hwnd != hwnd) ==>
            (r matches Err(e) && e@ == "Focused window is not eligible for capture"@),
        (exists|j: int| 0 <= j < windows@.len() && windows@[j].hwnd == hwnd) ==> ({
            let w = windows@[choose|j: int| 0 <= j < windows@.len() && windows@[j].hwnd == hwnd
                && forall|k: int| 0 <= k < j ==> windows@[k].hwnd != hwnd];
            if w.is_compatible {
                r matches Ok(info) && info.hwnd == hwnd && info.title@ == w.title@
                    && info.exe_path@ == w.exe_path@ && info.class_name@ == w.class_name@
                    && info.is_compatible && info.pid == w.pid
                    && info.incompatibility_reason == w.incompatibility_reason
                    && info.rect == (RectInfo { left: w.rect.left, top: w.rect.top, right: w.rect.right, bottom: w.rect.bottom })
            } else {
                r matches Err(e) && e@ == "Focused window is not compatible: "@
                    + reason_text(match w.incompatibility_reason { Some(s) => Some(s@), None => None })
            }
        }),
{
    let mut windows = windows;
    match find_window(&windows, hwnd) {
        None => Err("Focused window is not eligible for capture".to_owned()),
        Some(i) => {
            proof {
                let j = choose|j: int| 0 <= j < windows@.len() && windows@[j].hwnd == hwnd
                    && forall|k: int| 0 <= k < j ==> windows@[k].hwnd != hwnd;
                assert(j == i) by {
                    if j < i { assert(windows@[j].hwnd != hwnd); }
                    if j > i { assert(windows@[i as int].hwnd != hwnd); }
                }
            }
            let w = windows.remove(i);
            if !w.is_compatible {
                let mut e = "Focused window is not compatible: ".to_owned();
                e.append(reason_of(&w.incompatibility_reason));
                Err(e)
            } else {
                Ok(to_window_info(w))
            }
        },
    }
}

/// The window a hotkey capture embeds (`capture_window_via_hotkey_internal`):
/// the window under the cursor, if any, unless the capture list marks it as
/// not capturable. A window missing from the list is still taken.
pub fn capture_window_via_hotkey_internal(
    target: Option<(isize, String)>,
    windows: &Vec<windows_list::WindowInfo>,
) -> (r: Result<Option<(isize, String)>, String>)
    ensures
        match target {
            None => r matches Ok(None),
            Some((hwnd, title)) => {
                if exists|j: int| 0 <= j < windows@.len() && windows@[j].hwnd == hwnd {
                    let w = windows@[choose|j: int| 0 <= j < windows@.len() && windows@[j].hwnd == hwnd
                        && forall|k: int| 0 <= k < j ==> windows@[k].hwnd != hwnd];
                    if w.is_compatible {
                        r matches Ok(Some((h, t))) && h == hwnd && t@ == title@
                    } else {
                        r matches Err(e) && e@ == "Window is not compatible: "@
                            + reason_text(match w.incompatibility_reason { Some(s) => Some(s@), None => None })
                    }
                } else {
                    r matches Ok(Some((h, t))) && h == hwnd && t@ == title@
                }
            },
        },
{
    match target {
        None => Ok(None),
        Some((hwnd, title)) => {
            match find_window(windows, hwnd) {
                None => Ok(Some((hwnd, title))),
                Some(i) => {
                    proof {
                        let j = choose|j: int| 0 <= j < windows@.len() && windows@[j].hwnd == hwnd
                            && forall|k: int| 0 <= k < j ==> windows@[k].hwnd != hwnd;
                        assert(j == i) by {
                            if j < i { assert(windows@[j].hwnd != hwnd); }
                            if j > i { assert(windows@[i as int].hwnd != hwnd); }
                        }
                    }
                    if !windows[i].is_compatible {
                        let mut e = "Window is not compatible: ".to_owned();
                        e.append(reason_of(&windows[i].incompatibility_reason));
                        Err(e)
                    } else {
                        Ok(Some((hwnd, title)))
                    }
                },
            }
        },
    }
}

} // verus!
