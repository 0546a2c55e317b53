//! Drag-to-panel capture: the known panel containers, the one the dragged
//! window hovers, and what a finished drag drops where.

use vstd::prelude::*;

verus! {

/// The state shared between the drag-capture thread and the commands.
pub struct DragCaptureState {
    pub active: bool,
    /// The window being dragged.
    pub dragged_hwnd: Option<isize>,
    /// The panel containers a window can be dropped on.
    pub containers: Vec<isize>,
    /// The container under the cursor, highlighted.
    pub hovered_container: Option<isize>,
    /// The last window dragged and its title.
    pub last_drag_source: Option<(isize, String)>,
}

/// A highlight change while a window is dragged.
#[derive(PartialEq, Eq, Structural, Clone, Copy, Debug)]
pub enum HoverEvent {
    /// The cursor left this container.
    Leave(isize),
    /// The cursor entered this container.
    Enter(isize),
}

/// The hover notices when the hovered container changes from `last` to
/// `next`: leaving the old one, then entering the new one.
pub open spec fn hover_events(last: Option<isize>, next: Option<isize>) -> Seq<HoverEvent> {
    if next == last {
        seq![]
    } else {
        (match last { Some(p) => seq![HoverEvent::Leave(p)], None => seq![] })
            + (match next { Some(c) => seq![HoverEvent::Enter(c)], None => seq![] })
    }
}

/// What a drag reports when it starts or ends.
pub struct DragNotice {
    pub hwnd: isize,
    pub title: String,
    /// The container under the cursor at the end of the drag.
    pub hovered_container: Option<isize>,
}

impl DragCaptureState {
    /// The invariant: no container is listed twice.
    pub open spec fn wf(&self) -> bool {
        self.containers@.no_duplicates()
    }

    /// An inactive state without containers.
    pub fn new() -> (r: DragCaptureState)
        ensures
            r.wf(),
            !r.active,
            r.dragged_hwnd is None,
            r.containers@.len() == 0,
            r.hovered_container is None,
            r.last_drag_source is None,
    {
        DragCaptureState {
            active: false,
            dragged_hwnd: None,
            containers: Vec::new(),
            hovered_container: None,
            last_drag_source: None,
        }
    }

    /// Adds a container, unless it is known already.
    pub fn register_container(&mut self, hwnd: isize)
        requires
            old(self).wf(),
        ensures
            final(self).wf(),
            old(self).containers@.contains(hwnd) ==> final(self).containers@ == old(self).containers@,
            !old(self).containers@.contains(hwnd) ==> final(self).containers@ == old(self).containers@.push(hwnd),
            final(self).active == old(self).active,
            final(self).dragged_hwnd == old(self).dragged_hwnd,
            final(self).hovered_container == old(self).hovered_container,
            final(self).last_drag_source == old(self).last_drag_source,
    {
        let mut found = false;
        let mut i: usize = 0;
        while i < self.containers.len()
            invariant
                i <= self.containers@.len(),
                found == (exists|j: int| 0 <= j < i && self.containers@[j] == hwnd),
            decreases self.containers@.len() - i,
        {
            if self.containers[i] == hwnd {
                found = true;
            }
            i = i + 1;
        }
        proof {
            if found {
                let j = choose|j: int| 0 <= j < self.containers@.len() && self.containers@[j] == hwnd;
                assert(self.containers@.contains(hwnd));
            }
        }
        let ghost before = self.containers@;
        if !found {
            self.containers.push(hwnd);
            proof {
                assert(self.containers@.no_duplicates()) by {
                    assert forall|a: int, b: int| 0 <= a < self.containers@.len() && 0 <= b < self.containers@.len() && a != b
                        implies self.containers@[a] != self.containers@[b] by {
                        if a == before.len() { assert(!before.contains(hwnd)); assert(self.containers@[b] == before[b]); }
                        else if b == before.len() { assert(!before.contains(hwnd)); assert(self.containers@[a] == before[a]); }
                    }
                }
                assert(self.containers@ =~= before.push(hwnd));
            }
        }
    }

    /// Removes a container.
    pub fn unregister_container(&mut self, hwnd: isize)
        requires
            old(self).wf(),
        ensures
            final(self).wf(),
            final(self).containers@ == old(self).containers@.filter(|h: isize| h != hwnd),
            !final(self).containers@.contains(hwnd),
            final(self).active == old(self).active,
            final(self).dragged_hwnd == old(self).dragged_hwnd,
            final(self).hovered_container == old(self).hovered_container,
            final(self).last_drag_source == old(self).last_drag_source,
    {
        let ghost orig = self.containers@;
        let mut kept: Vec<isize> = Vec::new();
        let mut i: usize = 0;
        while i < self.containers.len()
            invariant
                orig == self.containers@,
                orig.no_duplicates(),
                i <= orig.len(),
                kept@ == orig.subrange(0, i as int).filter(|h: isize| h != hwnd),
                kept@.no_duplicates(),
                forall|x: isize| #[trigger] kept@.contains(x) ==> orig.subrange(0, i as int).contains(x) && x != hwnd,
            decreases orig.len() - i,
        {
            let h = self.containers[i];
            let ghost prefix = orig.subrange(0, i as int);
            assert(orig.subrange(0, i + 1) =~= prefix.push(h));
            proof {
                prefix.lemma_filter_push(h, |h: isize| h != hwnd);
            }
            let ghost before = kept@;
            if h != hwnd {
                proof {
                    if before.contains(h) {
                        let k = choose|k: int| 0 <= k < prefix.len() && prefix[k] == h;
                        assert(orig[k] == orig[i as int]);
                    }
                }
                kept.push(h);
                proof {
                    assert forall|a: int, b: int| 0 <= a < kept@.len() && 0 <= b < kept@.len() && a != b
                        implies kept@[a] != kept@[b] by {
                        if a == before.len() { assert(kept@[b] == before[b]); }
                        else if b == before.len() { assert(kept@[a] == before[a]); }
                    }
                }
            }
            proof {
                assert forall|x: isize| #[trigger] kept@.contains(x) implies orig.subrange(0, i + 1).contains(x) && x != hwnd by {
                    if before.contains(x) {
                        let k = choose|k: int| 0 <= k < prefix.len() && prefix[k] == x;
                        assert(orig.subrange(0, i + 1)[k] == x);
                    } else {
                        assert(orig.subrange(0, i + 1)[i as int] == x);
                    }
                }
            }
            i = i + 1;
        }
        assert(orig.subrange(0, orig.len() as int) =~= orig);
        self.containers = kept;
    }

    /// The drop to perform when a drag ended over a container: the last
    /// dragged window and the hovered container.
    pub fn take_auto_embed(&self) -> (r: Option<(isize, isize)>)
        ensures
            r == (match (self.hovered_container, self.last_drag_source) {
                (Some(c), Some((s, _))) => Some((s, c)),
                _ => None,
            }),
    {
        match self.hovered_container {
            None => None,
            Some(c) => match &self.last_drag_source {
                None => None,
                Some((s, _)) => Some((*s, c)),
            },
        }
    }

    /// The container under `check_hwnd`, the root window under the cursor, if
    /// it is one of the known containers.
    pub fn container_at(&self, check_hwnd: isize) -> (r: Option<isize>)
        ensures
            r == (if self.containers@.contains(check_hwnd) { Some(check_hwnd) } else { None }),
    {
        let mut i: usize = 0;
        while i < self.containers.len()
            invariant
                i <= self.containers@.len(),
                forall|j: int| 0 <= j < i ==> self.containers@[j] != check_hwnd,
            decreases self.containers@.len() - i,
        {
            if self.containers[i] == check_hwnd {
                return Some(check_hwnd);
            }
            i = i + 1;
        }
        None
    }

    /// One round of the drag poller: the cursor is over `check_hwnd`, the
    /// highlighted container was `last_hover`. Returns the new highlight and
    /// the notices to send; a change is also recorded as the hovered container.
    pub fn hover_step(&mut self, check_hwnd: isize, last_hover: Option<isize>) -> (r: (Option<isize>, Vec<HoverEvent>))
        ensures
            r.0 == (if old(self).containers@.contains(check_hwnd) { Some(check_hwnd) } else { None }),
            r.1@ == hover_events(last_hover, r.0),
            r.0 != last_hover ==> final(self).hovered_container == r.0,
            r.0 == last_hover ==> final(self).hovered_container == old(self).hovered_container,
            final(self).containers == old(self).containers,
            final(self).active == old(self).active,
            final(self).dragged_hwnd == old(self).dragged_hwnd,
            final(self).last_drag_source == old(self).last_drag_source,
    {
        let next = self.container_at(check_hwnd);
        let mut events: Vec<HoverEvent> = Vec::new();
        if next != last_hover {
            if let Some(p) = last_hover {
                events.push(HoverEvent::Leave(p));
            }
            let ghost first = events@;
            if let Some(c) = next {
                events.push(HoverEvent::Enter(c));
            }
            assert(events@ =~= hover_events(last_hover, next));
            self.hovered_container = next;
        } else {
            assert(events@ =~= hover_events(last_hover, next));
        }
        (next, events)
    }

    /// Turns capture on; refused when it is on already.
    pub fn activate(&mut self) -> (r: Result<(), String>)
        ensures
            old(self).active ==> (r matches Err(e) && e@ == "Drag capture already active"@) && *final(self) == *old(self),
            !old(self).active ==> r is Ok && final(self).active,
            final(self).containers == old(self).containers,
            final(self).dragged_hwnd == old(self).dragged_hwnd,
            final(self).hovered_container == old(self).hovered_container,
            final(self).last_drag_source == old(self).last_drag_source,
    {
        if self.active {
            return Err("Drag capture already active".to_owned());
        }
        self.active = true;
        Ok(())
    }

    /// Turns capture off.
    pub fn deactivate(&mut self)
        ensures
            !final(self).active,
            final(self).containers == old(self).containers,
            final(self).dragged_hwnd == old(self).dragged_hwnd,
            final(self).hovered_container == old(self).hovered_container,
            final(self).last_drag_source == old(self).last_drag_source,
    {
        self.active = false;
    }

    /// A window titled `title` started moving: it becomes the dragged window
    /// and the last drag source; the start is reported.
    pub fn drag_started(&mut self, hwnd: isize, title: String) -> (r: DragNotice)
        ensures
            final(self).dragged_hwnd == Some(hwnd),
            final(self).last_drag_source matches Some((h, t)) && h == hwnd && t@ == title@,
            r.hwnd == hwnd && r.title@ == title@ && r.hovered_container is None,
            final(self).containers == old(self).containers,
            final(self).active == old(self).active,
            final(self).hovered_container == old(self).hovered_container,
    {
        self.dragged_hwnd = Some(hwnd);
        self.last_drag_source = Some((hwnd, title.clone()));
        DragNotice { hwnd, title, hovered_container: None }
    }

    /// A window titled `title` stopped moving: nothing is dragged any more,
    /// the end is reported with the hovered container, and the highlight is
    /// cleared.
    pub fn drag_ended(&mut self, hwnd: isize, title: String) -> (r: DragNotice)
        ensures
            final(self).dragged_hwnd is None,
            final(self).hovered_container is None,
            r.hwnd == hwnd && r.title@ == title@ && r.hovered_container == old(self).hovered_container,
            final(self).containers == old(self).containers,
            final(self).active == old(self).active,
            final(self).last_drag_source == old(self).last_drag_source,
    {
        self.dragged_hwnd = None;
        let hovered = self.hovered_container;
        self.hovered_container = None;
        DragNotice { hwnd, title, hovered_container: hovered }
    }
}

/// The hover notices follow the hover: nothing when it does not change; when
/// it moves away from a container, leaving that container comes first,
/// whatever comes next (another container or none); entering names the new
/// container, and comes last.
pub proof fn lemma_hover_events_follow_the_hover(last: Option<isize>, next: Option<isize>)
    ensures
        next == last ==> hover_events(last, next).len() == 0,
        next != last ==> match last {
            Some(p) => hover_events(last, next).len() >= 1 && hover_events(last, next)[0] == HoverEvent::Leave(p),
            None => true,
        },
        next != last ==> match next {
            Some(c) => hover_events(last, next).len() >= 1 && hover_events(last, next).last() == HoverEvent::Enter(c),
            None => true,
        },
        forall|i: int| 0 <= i < hover_events(last, next).len() ==> match #[trigger] hover_events(last, next)[i] {
            HoverEvent::Enter(c) => next == Some(c) && next != last,
            HoverEvent::Leave(p) => last == Some(p) && next != last && i == 0,
        },
        hover_events(last, next).len() <= 2,
{
}

} // verus!
