//! Noticing a window being dragged onto the workbench.
//!
//! The system reports when a window starts and stops being moved; a poller
//! then follows the cursor. The first time the cursor of an active drag is
//! over the workbench the workbench is told which window entered; later
//! positions are reported as moves, and the end of the drag as a drop.

use vstd::prelude::*;

use crate::windows_list::WindowInfo;

verus! {

/// Sent when a capturable window is first dragged over the workbench.
pub struct DragEnteredWorkbenchPayload {
    pub source_hwnd: isize,
    pub title: String,
    pub x: i32,
    pub y: i32,
}

/// Sent while a window that entered the workbench moves over it, and when it is dropped.
#[derive(PartialEq, Eq, Structural, Clone, Copy, Debug)]
pub struct DragPositionPayload {
    pub source_hwnd: isize,
    pub x: i32,
    pub y: i32,
}

/// The drag being followed, if any, and whether the workbench was told of it.
#[derive(PartialEq, Eq, Structural, Clone, Copy, Debug)]
pub struct MonitorState {
    pub active_source_hwnd: Option<isize>,
    pub emitted_for_active_source: bool,
}

/// The workbench's client area in screen coordinates.
#[derive(PartialEq, Eq, Structural, Clone, Copy, Debug)]
pub struct WorkbenchClientRect {
    pub left: i32,
    pub top: i32,
    pub right: i32,
    pub bottom: i32,
}

/// A system notification about a window being moved or sized.
pub open spec fn object_is_window(hwnd: isize, object_id: i32, child_id: i32) -> bool {
    hwnd != 0 && object_id == 0 && child_id == 0
}

/// Whether a move/size notification is about a whole window (not a part of one).
pub fn is_window_event(hwnd: isize, object_id: i32, child_id: i32) -> (r: bool)
    ensures
        r == object_is_window(hwnd, object_id, child_id),
{
    hwnd != 0 && object_id == 0 && child_id == 0
}

/// The cursor position relative to the workbench's client area, when the
/// cursor is within it (edges included).
pub open spec fn position_in(rect: WorkbenchClientRect, x: i32, y: i32) -> Option<(i32, i32)> {
    if x < rect.left || x > rect.right || y < rect.top || y > rect.bottom {
        None
    } else {
        Some(((x - rect.left) as i32, (y - rect.top) as i32))
    }
}

/// The cursor position relative to the workbench's client area, if the cursor
/// is over it (the arithmetic of `cursor_position_in_workbench`).
pub fn cursor_in_workbench(rect: WorkbenchClientRect, x: i32, y: i32) -> (r: Option<(i32, i32)>)
    requires
        x - rect.left <= i32::MAX,
        y - rect.top <= i32::MAX,
    ensures
        r == position_in(rect, x, y),
{
    if x < rect.left || x > rect.right || y < rect.top || y > rect.bottom {
        None
    } else {
        Some((x - rect.left, y - rect.top))
    }
}

/// The notice for a window dragged over the workbench at `x`, `y`: none when
/// the window is not in the capture list or cannot be captured.
pub open spec fn entered_payload(source_hwnd: isize, windows: Seq<WindowInfo>) -> Option<Seq<char>> {
    if exists|j: int| 0 <= j < windows.len() && windows[j].hwnd == source_hwnd {
        let w = windows[choose|j: int| 0 <= j < windows.len() && windows[j].hwnd == source_hwnd
            && forall|k: int| 0 <= k < j ==> windows[k].hwnd != source_hwnd];
        if w.is_compatible { Some(w.title@) } else { None }
    } else {
        None
    }
}

/// The notice for a window dragged over the workbench (`payload_for_source`):
/// its title comes from the capture list, which must also mark it capturable.
pub fn payload_for_source(source_hwnd: isize, x: i32, y: i32, windows: &Vec<WindowInfo>)
    -> (r: Option<DragEnteredWorkbenchPayload>)
    ensures
        match entered_payload(source_hwnd, windows@) {
            Some(t) => r matches Some(p) && p.source_hwnd == source_hwnd && p.title@ == t && p.x == x && p.y == y,
            None => r is None,
        },
{
    match crate::workbench::find_window(windows, source_hwnd) {
        None => None,
        Some(i) => {
            proof {
                let j = choose|j: int| 0 <= j < windows@.len() && windows@[j].hwnd == source_hwnd
                    && forall|k: int| 0 <= k < j ==> windows@[k].hwnd != source_hwnd;
                assert(j == i) by {
                    if j < i { assert(windows@[j].hwnd != source_hwnd); }
                    if j > i { assert(windows@[i as int].hwnd != source_hwnd); }
                }
            }
            if !windows[i].is_compatible {
                None
            } else {
                Some(DragEnteredWorkbenchPayload { source_hwnd, title: windows[i].title.clone(), x, y })
            }
        },
    }
}

/// What one round of the poller does.
pub enum PollDecision {
    /// Nothing this round.
    Wait,
    /// Report that the window moved over the workbench.
    EmitMoved(DragPositionPayload),
    /// Look the window up in the capture list and report that it entered
    /// (`payload_for_source`, then `entered_reported`).
    LookUp { source_hwnd: isize, x: i32, y: i32 },
}

impl MonitorState {
    /// No drag is followed.
    pub fn new() -> (r: MonitorState)
        ensures
            r.active_source_hwnd is None,
            !r.emitted_for_active_source,
    {
        MonitorState { active_source_hwnd: None, emitted_for_active_source: false }
    }

    /// The followed window and whether the workbench was told of it.
    pub fn active_source(&self) -> (r: Option<(isize, bool)>)
        ensures
            r == (match self.active_source_hwnd {
                Some(h) => Some((h, self.emitted_for_active_source)),
                None => None,
            }),
    {
        match self.active_source_hwnd {
            Some(h) => Some((h, self.emitted_for_active_source)),
            None => None,
        }
    }

    /// Notes that the workbench was told of `source_hwnd`, if it is still the
    /// followed window.
    pub fn mark_active_source_emitted(&mut self, source_hwnd: isize)
        ensures
            old(self).active_source_hwnd == Some(source_hwnd) ==> *final(self) == (MonitorState {
                emitted_for_active_source: true,
                ..*old(self)
            }),
            old(self).active_source_hwnd != Some(source_hwnd) ==> *final(self) == *old(self),
    {
        if self.active_source_hwnd == Some(source_hwnd) {
            self.emitted_for_active_source = true;
        }
    }

    /// Stops following `source_hwnd`, if it is the followed window.
    pub fn clear_active_source(&mut self, source_hwnd: isize)
        ensures
            old(self).active_source_hwnd == Some(source_hwnd) ==> *final(self) == MonitorState::new_spec(),
            old(self).active_source_hwnd != Some(source_hwnd) ==> *final(self) == *old(self),
    {
        if self.active_source_hwnd == Some(source_hwnd) {
            self.active_source_hwnd = None;
            self.emitted_for_active_source = false;
        }
    }

    /// The state that follows no drag.
    pub open spec fn new_spec() -> MonitorState {
        MonitorState { active_source_hwnd: None, emitted_for_active_source: false }
    }

    /// A window started moving: follow it, not yet reported.
    pub fn drag_started(&mut self, source_hwnd: isize)
        ensures
            *final(self) == (MonitorState { active_source_hwnd: Some(source_hwnd), emitted_for_active_source: false }),
    {
        self.active_source_hwnd = Some(source_hwnd);
        self.emitted_for_active_source = false;
    }

    /// A window stopped moving, with the cursor at `cursor` relative to the
    /// workbench (none when outside). When it is the followed window and the
    /// workbench was told of it, the drop position is reported; either way the
    /// window is no longer followed.
    pub fn drag_ended(&mut self, source_hwnd: isize, cursor: Option<(i32, i32)>) -> (r: Option<DragPositionPayload>)
        ensures
            r == (match cursor {
                Some((x, y)) => if old(self).active_source_hwnd == Some(source_hwnd) && old(self).emitted_for_active_source {
                    Some(DragPositionPayload { source_hwnd, x, y })
                } else {
                    None
                },
                None => None,
            }),
            old(self).active_source_hwnd == Some(source_hwnd) ==> *final(self) == MonitorState::new_spec(),
            old(self).active_source_hwnd != Some(source_hwnd) ==> *final(self) == *old(self),
    {
        let payload = match cursor {
            Some((x, y)) => {
                if self.active_source_hwnd == Some(source_hwnd) && self.emitted_for_active_source {
                    Some(DragPositionPayload { source_hwnd, x, y })
                } else {
                    None
                }
            },
            None => None,
        };
        self.clear_active_source(source_hwnd);
        payload
    }

    /// One round of the poller for the followed window `source_hwnd`, which
    /// still exists, with the cursor at `cursor` relative to the workbench
    /// (none when outside): wait while outside; once reported, report moves;
    /// otherwise look the window up.
    pub fn poll_decision(&self, source_hwnd: isize, already_emitted: bool, cursor: Option<(i32, i32)>)
        -> (r: PollDecision)
        ensures
            r == poll_decision_spec(source_hwnd, already_emitted, cursor),
            cursor is None ==> r is Wait,
            cursor matches Some((x, y)) ==> if already_emitted {
                r == PollDecision::EmitMoved(DragPositionPayload { source_hwnd, x, y })
            } else {
                r == PollDecision::LookUp { source_hwnd, x, y }
            },
    {
        match cursor {
            None => PollDecision::Wait,
            Some((x, y)) => {
                if already_emitted {
                    PollDecision::EmitMoved(DragPositionPayload { source_hwnd, x, y })
                } else {
                    PollDecision::LookUp { source_hwnd, x, y }
                }
            },
        }
    }

    /// After the lookup of `source_hwnd`: when it gave no notice (the window
    /// cannot be captured) or the notice reached the workbench, the window
    /// counts as reported; a notice that found no workbench is tried again.
    pub fn entered_reported(&mut self, source_hwnd: isize, had_payload: bool, delivered: bool)
        ensures
            (!had_payload || delivered) && old(self).active_source_hwnd == Some(source_hwnd) ==>
                *final(self) == (MonitorState { emitted_for_active_source: true, ..*old(self) }),
            !((!had_payload || delivered) && old(self).active_source_hwnd == Some(source_hwnd)) ==>
                *final(self) == *old(self),
            *final(self) == reported(*old(self), source_hwnd, had_payload, delivered),
    {
        if !had_payload || delivered {
            self.mark_active_source_emitted(source_hwnd);
        }
    }
}

/// One round of the poller, as `poll_decision` decides it.
pub open spec fn poll_decision_spec(source_hwnd: isize, already_emitted: bool, cursor: Option<(i32, i32)>)
    -> PollDecision
{
    match cursor {
        None => PollDecision::Wait,
        Some((x, y)) => if already_emitted {
            PollDecision::EmitMoved(DragPositionPayload { source_hwnd, x, y })
        } else {
            PollDecision::LookUp { source_hwnd, x, y }
        },
    }
}

/// The state after the lookup of `source_hwnd` was reported, as
/// `entered_reported` leaves it.
pub open spec fn reported(s: MonitorState, source_hwnd: isize, had_payload: bool, delivered: bool) -> MonitorState {
    if (!had_payload || delivered) && s.active_source_hwnd == Some(source_hwnd) {
        MonitorState { emitted_for_active_source: true, ..s }
    } else {
        s
    }
}

/// What the outside world answers in one round of the poller: where the
/// cursor is relative to the workbench, whether the lookup found a capturable
/// window, and whether its notice reached the workbench.
pub struct PollRound {
    pub cursor: Option<(i32, i32)>,
    pub has_payload: bool,
    pub delivered: bool,
}

/// What a round of the poller tells the workbench.
pub enum PollNotice {
    Quiet,
    Moved,
    Entered,
}

/// One round of the poller for the followed window `h`: its decision, then,
/// after a lookup, the report of its outcome.
pub open spec fn poll_round(s: MonitorState, h: isize, round: PollRound) -> (MonitorState, PollNotice) {
    match poll_decision_spec(h, s.emitted_for_active_source, round.cursor) {
        PollDecision::Wait => (s, PollNotice::Quiet),
        PollDecision::EmitMoved(_) => (s, PollNotice::Moved),
        PollDecision::LookUp { .. } => (
            reported(s, h, round.has_payload, round.delivered),
            if round.has_payload && round.delivered { PollNotice::Entered } else { PollNotice::Quiet },
        ),
    }
}

/// The notices of successive rounds of the poller while it follows `h`.
pub open spec fn poll_notices(s: MonitorState, h: isize, rounds: Seq<PollRound>) -> Seq<PollNotice>
    decreases rounds.len(),
{
    if rounds.len() == 0 {
        seq![]
    } else {
        let (next, notice) = poll_round(s, h, rounds[0]);
        seq![notice] + poll_notices(next, h, rounds.drop_first())
    }
}

/// How many of `notices` tell the workbench that a window entered.
pub open spec fn entered_count(notices: Seq<PollNotice>) -> nat
    decreases notices.len(),
{
    if notices.len() == 0 {
        0
    } else {
        (if notices[0] is Entered { 1nat } else { 0nat }) + entered_count(notices.drop_first())
    }
}

proof fn lemma_poll_notices_unfold(s: MonitorState, h: isize, rounds: Seq<PollRound>)
    requires
        rounds.len() > 0,
    ensures
        poll_notices(s, h, rounds)[0] == poll_round(s, h, rounds[0]).1,
        poll_notices(s, h, rounds).drop_first() == poll_notices(poll_round(s, h, rounds[0]).0, h, rounds.drop_first()),
        poll_notices(s, h, rounds).len() == rounds.len(),
    decreases rounds.len(),
{
    let (next, notice) = poll_round(s, h, rounds[0]);
    let rest = poll_notices(next, h, rounds.drop_first());
    assert((seq![notice] + rest).drop_first() =~= rest);
    if rounds.len() > 1 {
        lemma_poll_notices_unfold(next, h, rounds.drop_first());
    }
}

/// Once the workbench was told of the followed window, no round tells it again.
proof fn lemma_no_entered_after_report(s: MonitorState, h: isize, rounds: Seq<PollRound>)
    requires
        s.emitted_for_active_source,
    ensures
        entered_count(poll_notices(s, h, rounds)) == 0,
    decreases rounds.len(),
{
    if rounds.len() > 0 {
        lemma_poll_notices_unfold(s, h, rounds);
        lemma_no_entered_after_report(poll_round(s, h, rounds[0]).0, h, rounds.drop_first());
    }
}

/// At most one "entered" notice is sent while a drag is followed, and none
/// once the workbench was told of the window.
pub proof fn lemma_at_most_one_entered_notice(s: MonitorState, h: isize, rounds: Seq<PollRound>)
    requires
        s.active_source_hwnd == Some(h),
    ensures
        entered_count(poll_notices(s, h, rounds)) <= 1,
        s.emitted_for_active_source ==> entered_count(poll_notices(s, h, rounds)) == 0,
    decreases rounds.len(),
{
    if s.emitted_for_active_source {
        lemma_no_entered_after_report(s, h, rounds);
    } else if rounds.len() > 0 {
        lemma_poll_notices_unfold(s, h, rounds);
        let (next, notice) = poll_round(s, h, rounds[0]);
        if notice is Entered {
            lemma_no_entered_after_report(next, h, rounds.drop_first());
        } else {
            lemma_at_most_one_entered_notice(next, h, rounds.drop_first());
        }
    }
}

/// A drag that stays over the workbench, of a window that can be captured,
/// while the workbench window exists: the first round tells the workbench that
/// the window entered, every later round that it moved, and exactly one
/// "entered" notice is sent.
pub proof fn lemma_one_entered_notice_per_drag(h: isize, rounds: Seq<PollRound>)
    requires
        rounds.len() > 0,
        forall|i: int| 0 <= i < rounds.len() ==> (#[trigger] rounds[i]).cursor is Some
            && rounds[i].has_payload && rounds[i].delivered,
    ensures
        ({
            let start = MonitorState { active_source_hwnd: Some(h), emitted_for_active_source: false };
            let notices = poll_notices(start, h, rounds);
            &&& notices.len() == rounds.len()
            &&& notices[0] is Entered
            &&& forall|i: int| 0 < i < notices.len() ==> #[trigger] notices[i] is Moved
            &&& entered_count(notices) == 1
        }),
{
    let start = MonitorState { active_source_hwnd: Some(h), emitted_for_active_source: false };
    lemma_poll_notices_unfold(start, h, rounds);
    let next = poll_round(start, h, rounds[0]).0;
    assert(rounds[0].cursor is Some && rounds[0].has_payload && rounds[0].delivered);
    assert(next.emitted_for_active_source);
    assert(next.active_source_hwnd == Some(h));
    let rest = rounds.drop_first();
    assert forall|i: int| 0 <= i < rest.len() implies (#[trigger] rest[i]).cursor is Some by {
        assert(rest[i] == rounds[i + 1]);
    }
    lemma_moved_while_reported(next, h, rest);
    lemma_no_entered_after_report(next, h, rest);
    let notices = poll_notices(start, h, rounds);
    assert forall|i: int| 0 < i < notices.len() implies #[trigger] notices[i] is Moved by {
        assert(notices[i] == notices.drop_first()[i - 1]);
    }
}

/// Once reported, every round with the cursor over the workbench reports a move.
proof fn lemma_moved_while_reported(s: MonitorState, h: isize, rounds: Seq<PollRound>)
    requires
        s.emitted_for_active_source,
        forall|i: int| 0 <= i < rounds.len() ==> (#[trigger] rounds[i]).cursor is Some,
    ensures
        forall|i: int| 0 <= i < rounds.len() ==> #[trigger] poll_notices(s, h, rounds)[i] is Moved,
    decreases rounds.len(),
{
    if rounds.len() > 0 {
        lemma_poll_notices_unfold(s, h, rounds);
        let rest = rounds.drop_first();
        assert forall|i: int| 0 <= i < rest.len() implies (#[trigger] rest[i]).cursor is Some by {
            assert(rest[i] == rounds[i + 1]);
        }
        lemma_moved_while_reported(poll_round(s, h, rounds[0]).0, h, rest);
        let ns = poll_notices(s, h, rounds);
        assert forall|i: int| 0 <= i < rounds.len() implies #[trigger] ns[i] is Moved by {
            if i > 0 {
                assert(ns[i] == ns.drop_first()[i - 1]);
            }
        }
    }
}

/// A cursor counts as over the workbench exactly when it lies within the
/// client rectangle, edges included, and its position is then taken from the
/// rectangle's top-left corner.
pub proof fn lemma_position_only_inside(rect: WorkbenchClientRect, x: i32, y: i32)
    ensures
        (position_in(rect, x, y) is Some)
            <==> (rect.left <= x <= rect.right && rect.top <= y <= rect.bottom),
        y > rect.bottom || y < rect.top || x > rect.right || x < rect.left ==> position_in(rect, x, y) is None,
        x - rect.left <= i32::MAX && y - rect.top <= i32::MAX ==> match position_in(rect, x, y) {
            Some((cx, cy)) => cx == x - rect.left && cy == y - rect.top && 0 <= cx <= rect.right - rect.left
                && 0 <= cy <= rect.bottom - rect.top,
            None => true,
        },
{
}

} // verus!
