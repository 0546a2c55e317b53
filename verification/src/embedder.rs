//! Embedding a window into a panel container and releasing it again: the
//! checks, the record of what the window looked like, and what is restored.

use vstd::prelude::*;

use crate::panels::{EmbedInfo, embedded_style, caption_style, thick_frame_style};

verus! {

/// The message with which embedding is refused where no platform embedder is wired in.
pub open spec fn unsupported_message() -> Seq<char> {
    "Window embedding is only supported on Windows"@
}

fn unsupported() -> (r: String)
    ensures
        r@ == unsupported_message(),
{
    "Window embedding is only supported on Windows".to_owned()
}

/// The portable entry point for embedding: without a platform embedder the
/// request is refused.
pub fn embed_window(source_hwnd: isize, container_hwnd: isize) -> (r: Result<EmbedInfo, String>)
    ensures
        r matches Err(e) && e@ == unsupported_message(),
{
    Err(unsupported())
}

/// The portable entry point for releasing an embedded window: without a
/// platform embedder the request is refused.
pub fn release_window(source_hwnd: isize, info: &EmbedInfo) -> (r: Result<(), String>)
    ensures
        r matches Err(e) && e@ == unsupported_message(),
{
    Err(unsupported())
}

/// Whether both windows still exist: the source is checked first.
pub fn check_embed_targets(source_valid: bool, container_valid: bool) -> (r: Result<(), String>)
    ensures
        !source_valid ==> (r matches Err(e) && e@ == "Source window is not valid"@),
        source_valid && !container_valid ==> (r matches Err(e) && e@ == "Container window is not valid"@),
        source_valid && container_valid ==> r is Ok,
{
    if !source_valid {
        Err("Source window is not valid".to_owned())
    } else if !container_valid {
        Err("Container window is not valid".to_owned())
    } else {
        Ok(())
    }
}

/// What was read of the source window before it is re-parented.
pub struct SourceSnapshot {
    pub title: String,
    pub exe: String,
    pub style: u32,
    /// The parent window, 0 where it has none.
    pub parent: isize,
    pub thread_id: u32,
}

/// The style the source gets while it is embedded.
pub fn embedding_style(snapshot: &SourceSnapshot) -> (r: u32)
    ensures
        r == snapshot.style & !(caption_style() | thick_frame_style()),
{
    embedded_style(snapshot.style)
}

/// What undoes a failed re-parenting: the source's own style comes back and
/// the two input queues are detached again.
pub struct EmbedRollback {
    pub restore_style: u32,
    pub source_thread: u32,
    pub container_thread: u32,
}

impl EmbedRollback {
    /// The error reported for a failed re-parenting.
    pub fn message(&self) -> (r: String)
        ensures
            r@ == "SetParent failed"@,
    {
        "SetParent failed".to_owned()
    }
}

/// The record an embedding keeps of the window it took in.
pub open spec fn embedded_info(source_hwnd: isize, snapshot: SourceSnapshot) -> EmbedInfo {
    EmbedInfo {
        source_hwnd,
        source_title: snapshot.title,
        source_exe: snapshot.exe,
        original_style: snapshot.style,
        original_parent: snapshot.parent,
        thread_id: snapshot.thread_id,
    }
}

/// The end of an embedding, once `SetParent` has answered with
/// `previous_parent` (0 for a failure): the record of the window, or what to undo.
pub fn finish_embed(
    source_hwnd: isize,
    snapshot: SourceSnapshot,
    container_thread: u32,
    previous_parent: isize,
) -> (r: Result<EmbedInfo, EmbedRollback>)
    ensures
        previous_parent == 0 ==> (r matches Err(b) && b.restore_style == snapshot.style
            && b.source_thread == snapshot.thread_id && b.container_thread == container_thread),
        previous_parent != 0 ==> (r matches Ok(info) && info.source_hwnd == source_hwnd
            && info.source_title@ == snapshot.title@ && info.source_exe@ == snapshot.exe@
            && info.original_style == snapshot.style && info.original_parent == snapshot.parent
            && info.thread_id == snapshot.thread_id),
        previous_parent != 0 ==> r == Ok::<EmbedInfo, EmbedRollback>(embedded_info(source_hwnd, snapshot)),
{
    if previous_parent == 0 {
        Err(EmbedRollback {
            restore_style: snapshot.style,
            source_thread: snapshot.thread_id,
            container_thread,
        })
    } else {
        Ok(EmbedInfo {
            source_hwnd,
            source_title: snapshot.title,
            source_exe: snapshot.exe,
            original_style: snapshot.style,
            original_parent: snapshot.parent,
            thread_id: snapshot.thread_id,
        })
    }
}

/// The window a released source is given back to.
pub enum ReleaseParent {
    /// Its parent from before the embedding, which still exists.
    Original(isize),
    /// The desktop.
    Desktop,
}

/// How a released window is restored.
pub struct ReleasePlan {
    pub restore_style: u32,
    pub parent: ReleaseParent,
    /// The thread whose input the source is detached from, where it was attached.
    pub detach_from: Option<u32>,
    /// Where the released window is shown: left, top, width and height.
    pub placement: (i32, i32, i32, i32),
}

/// How a released window is restored, as `release_plan` decides it.
pub open spec fn release_plan_of(
    info: EmbedInfo,
    source_valid: bool,
    container_thread: u32,
    original_parent_valid: bool,
) -> Option<ReleasePlan> {
    if !source_valid {
        None
    } else {
        Some(ReleasePlan {
            restore_style: info.original_style,
            parent: if info.original_parent != 0 && original_parent_valid {
                ReleaseParent::Original(info.original_parent)
            } else {
                ReleaseParent::Desktop
            },
            detach_from: if container_thread != 0 { Some(container_thread) } else { None },
            placement: (100, 100, 400, 300),
        })
    }
}

/// How to release `info`'s window: nothing where the source is gone;
/// else its style, its old parent where that is still a window (the desktop
/// otherwise), the container's thread to detach from where it is known, and
/// the place it is shown at.
pub fn release_plan(
    info: &EmbedInfo,
    source_valid: bool,
    container_thread: u32,
    original_parent_valid: bool,
) -> (r: Option<ReleasePlan>)
    ensures
        !source_valid ==> r is None,
        source_valid ==> (r matches Some(p) && p.restore_style == info.original_style
            && (if info.original_parent != 0 && original_parent_valid {
                p.parent == ReleaseParent::Original(info.original_parent)
            } else {
                p.parent == ReleaseParent::Desktop
            })
            && (if container_thread != 0 {
                p.detach_from == Some(container_thread)
            } else {
                p.detach_from is None
            })
            && p.placement == (100i32, 100i32, 400i32, 300i32)),
        r == release_plan_of(*info, source_valid, container_thread, original_parent_valid),
{
    if !source_valid {
        return None;
    }
    let parent = if info.original_parent != 0 && original_parent_valid {
        ReleaseParent::Original(info.original_parent)
    } else {
        ReleaseParent::Desktop
    };
    let detach_from = if container_thread != 0 { Some(container_thread) } else { None };
    Some(ReleasePlan { restore_style: info.original_style, parent, detach_from, placement: (100, 100, 400, 300) })
}

/// Releasing a window that was embedded gives it back what embedding took:
/// the style it had (which embedding stripped of caption and sizing border),
/// its old parent where that still exists (the desktop otherwise), and shows
/// it at (100, 100), 400 by 300; a window that no longer exists is left alone.
pub proof fn lemma_release_undoes_embedding(
    source_hwnd: isize,
    snapshot: SourceSnapshot,
    source_valid: bool,
    container_thread: u32,
    original_parent_valid: bool,
)
    ensures
        ({
            let info = embedded_info(source_hwnd, snapshot);
            let plan = release_plan_of(info, source_valid, container_thread, original_parent_valid);
            &&& !source_valid ==> plan is None
            &&& source_valid ==> (plan matches Some(p)
                && p.restore_style == snapshot.style
                && p.parent == (if snapshot.parent != 0 && original_parent_valid {
                    ReleaseParent::Original(snapshot.parent)
                } else {
                    ReleaseParent::Desktop
                })
                && p.placement == (100i32, 100i32, 400i32, 300i32))
            &&& snapshot.style & !(caption_style() | thick_frame_style()) & caption_style() == 0
        }),
{
    let st = snapshot.style;
    assert(st & !(0x00C0_0000u32 | 0x0004_0000u32) & 0x00C0_0000u32 == 0) by (bit_vector);
}

} // verus!
