//! The registry of live window thumbnails shown on the workbench.
//!
//! Each workbench panel that mirrors a window owns one handle: the two
//! windows, the source's client size and the thumbnail segments that draw
//! visible parts of the panel. The registry decides what the desktop
//! compositor is asked to do; the caller performs those requests and reports
//! their outcomes.

use vstd::prelude::*;

use crate::text::{
    str_eq, compare_text, text_less, TextOrder, decimal, push_decimal,
    lemma_text_less_transitive, lemma_text_less_irreflexive, lemma_text_less_asymmetric,
    lemma_decimal_injective,
};

verus! {

/// A rectangle in client coordinates (edges, right and bottom exclusive).
#[derive(PartialEq, Eq, Structural, Clone, Copy, Debug)]
pub struct Rect {
    pub left: i32,
    pub top: i32,
    pub right: i32,
    pub bottom: i32,
}

/// The client size of a thumbnail's source window.
#[derive(PartialEq, Eq, Structural, Clone, Copy, Debug)]
pub struct ThumbnailSourceSize {
    pub width: i32,
    pub height: i32,
}

/// One compositor thumbnail drawing (part of) a source window into the workbench.
#[derive(PartialEq, Eq, Structural, Clone, Copy, Debug)]
pub struct ThumbnailSegment {
    pub thumbnail_id: isize,
    pub dest_rect: Rect,
    pub source_rect: Option<Rect>,
    pub visible: bool,
}

/// Everything the registry keeps about one panel's thumbnail.
pub struct ThumbnailHandle {
    pub dest_hwnd: isize,
    pub source_hwnd: isize,
    pub source_size: ThumbnailSourceSize,
    pub segments: Vec<ThumbnailSegment>,
    /// Opacity handed to the compositor, 255 being opaque.
    pub opacity: u8,
}

/// The content of a handle.
pub struct HandleView {
    pub dest_hwnd: isize,
    pub source_hwnd: isize,
    pub source_size: ThumbnailSourceSize,
    pub segments: Seq<ThumbnailSegment>,
    pub opacity: u8,
}

impl View for ThumbnailHandle {
    type V = HandleView;

    open spec fn view(&self) -> HandleView {
        HandleView {
            dest_hwnd: self.dest_hwnd,
            source_hwnd: self.source_hwnd,
            source_size: self.source_size,
            segments: self.segments@,
            opacity: self.opacity,
        }
    }
}

/// The thumbnail ids of a handle, in segment order.
pub open spec fn segment_ids(segments: Seq<ThumbnailSegment>) -> Seq<isize> {
    segments.map_values(|s: ThumbnailSegment| s.thumbnail_id)
}

/// Sent to the workbench when a mirrored window closed.
pub struct SourceClosedPayload {
    pub panel_id: String,
    pub source_hwnd: isize,
}

/// The panel ids of a list of notices.
pub open spec fn payload_ids(v: Seq<SourceClosedPayload>) -> Seq<Seq<char>> {
    v.map_values(|p: SourceClosedPayload| p.panel_id@)
}

/// A panel id and its handle.
pub struct ThumbnailEntry {
    pub panel_id: String,
    pub handle: ThumbnailHandle,
}

/// The registry: a handle per panel id, the counter of panel ids, and the
/// window-destruction hook once it is installed.
pub struct ThumbnailManager {
    pub entries: Vec<ThumbnailEntry>,
    pub next_id: u32,
    pub source_lifecycle_hook: Option<isize>,
}

/// The width of a rectangle.
pub open spec fn width_of(r: Rect) -> int {
    r.right - r.left
}

/// The height of a rectangle.
pub open spec fn height_of(r: Rect) -> int {
    r.bottom - r.top
}

/// The overlap of two rectangles, if it has an area.
pub open spec fn intersection(a: Rect, b: Rect) -> Option<Rect> {
    let r = Rect {
        left: if a.left >= b.left { a.left } else { b.left },
        top: if a.top >= b.top { a.top } else { b.top },
        right: if a.right <= b.right { a.right } else { b.right },
        bottom: if a.bottom <= b.bottom { a.bottom } else { b.bottom },
    };
    if width_of(r) > 0 && height_of(r) > 0 {
        Some(r)
    } else {
        None
    }
}

/// The overlap of two rectangles, or `None` when they do not overlap in an area.
pub fn intersect_rect(left: &Rect, right: &Rect) -> (r: Option<Rect>)
    ensures
        r == intersection(*left, *right),
{
    let rect = Rect {
        left: if left.left >= right.left { left.left } else { right.left },
        top: if left.top >= right.top { left.top } else { right.top },
        right: if left.right <= right.right { left.right } else { right.right },
        bottom: if left.bottom <= right.bottom { left.bottom } else { right.bottom },
    };
    if (rect.right as i64) - (rect.left as i64) > 0 && (rect.bottom as i64) - (rect.top as i64) > 0 {
        Some(rect)
    } else {
        None
    }
}

/// `value` limited to `0..=max`.
pub fn clamp_source_coord(value: i32, max: i32) -> (r: i32)
    requires
        max >= 0,
    ensures
        r == (if value < 0 { 0 } else if value > max { max } else { value }),
{
    if value < 0 {
        0
    } else if value > max {
        max
    } else {
        value
    }
}

/// The source rectangle of a thumbnail segment, once its edges have been
/// scaled from destination to source coordinates (`scaled`: left and top
/// rounded down, right and bottom rounded up): the edges are limited to the
/// source, and an empty result is widened to one pixel where the source allows.
pub open spec fn clamped_source_rect(scaled: Rect, size: ThumbnailSourceSize) -> Rect {
    let left = if scaled.left < 0 { 0 } else if scaled.left > size.width { size.width } else { scaled.left };
    let top = if scaled.top < 0 { 0 } else if scaled.top > size.height { size.height } else { scaled.top };
    let right0 = if scaled.right < 0 { 0 } else if scaled.right > size.width { size.width } else { scaled.right };
    let bottom0 = if scaled.bottom < 0 { 0 } else if scaled.bottom > size.height { size.height } else { scaled.bottom };
    Rect {
        left,
        top,
        right: if right0 <= left { if left + 1 <= size.width { (left + 1) as i32 } else { size.width } } else { right0 },
        bottom: if bottom0 <= top { if top + 1 <= size.height { (top + 1) as i32 } else { size.height } } else { bottom0 },
    }
}

/// The source rectangle for a segment of a panel laid out at `full_dest_rect`,
/// given the scaled edges of the segment. A destination or source without area
/// is refused.
pub fn source_rect_for_segment(full_dest_rect: &Rect, source_size: ThumbnailSourceSize, scaled: Rect)
    -> (r: Result<Rect, String>)
    ensures
        (width_of(*full_dest_rect) <= 0 || height_of(*full_dest_rect) <= 0 || source_size.width <= 0
            || source_size.height <= 0) ==> (r matches Err(e) && e@ == "Thumbnail layout rectangle is invalid"@),
        !(width_of(*full_dest_rect) <= 0 || height_of(*full_dest_rect) <= 0 || source_size.width <= 0
            || source_size.height <= 0) ==> r == Ok::<Rect, String>(clamped_source_rect(scaled, source_size)),
{
    let dest_width = (full_dest_rect.right as i64) - (full_dest_rect.left as i64);
    let dest_height = (full_dest_rect.bottom as i64) - (full_dest_rect.top as i64);
    if dest_width <= 0 || dest_height <= 0 || source_size.width <= 0 || source_size.height <= 0 {
        return Err("Thumbnail layout rectangle is invalid".to_owned());
    }
    let left = clamp_source_coord(scaled.left, source_size.width);
    let top = clamp_source_coord(scaled.top, source_size.height);
    let mut right = clamp_source_coord(scaled.right, source_size.width);
    let mut bottom = clamp_source_coord(scaled.bottom, source_size.height);
    if right <= left {
        right = if (left as i64) + 1 <= source_size.width as i64 { left + 1 } else { source_size.width };
    }
    if bottom <= top {
        bottom = if (top as i64) + 1 <= source_size.height as i64 { top + 1 } else { source_size.height };
    }
    Ok(Rect { left, top, right, bottom })
}

/// The client size of a window from its client rectangle; a failed query or
/// an empty client area is refused.
pub fn source_client_size(client: Result<Rect, String>) -> (r: Result<ThumbnailSourceSize, String>)
    requires
        client matches Ok(c) ==> width_of(c) <= i32::MAX && height_of(c) <= i32::MAX,
    ensures
        match client {
            Err(e) => r matches Err(m) && m@ == "GetClientRect failed: "@ + e@,
            Ok(c) => if width_of(c) <= 0 || height_of(c) <= 0 {
                r matches Err(m) && m@ == "Thumbnail source client size is invalid"@
            } else {
                r == Ok::<ThumbnailSourceSize, String>(ThumbnailSourceSize { width: width_of(c) as i32, height: height_of(c) as i32 })
            },
        },
{
    match client {
        Err(e) => {
            let mut m = "GetClientRect failed: ".to_owned();
            m.append(e.as_str());
            Err(m)
        },
        Ok(c) => {
            let w = (c.right as i64) - (c.left as i64);
            let h = (c.bottom as i64) - (c.top as i64);
            if w <= 0 || h <= 0 {
                Err("Thumbnail source client size is invalid".to_owned())
            } else {
                Ok(ThumbnailSourceSize { width: w as i32, height: h as i32 })
            }
        },
    }
}

impl ThumbnailManager {
    /// The panel ids, in registry order.
    pub open spec fn ids(&self) -> Seq<Seq<char>> {
        self.entries@.map_values(|e: ThumbnailEntry| e.panel_id@)
    }

    /// The registry invariant: no panel id occurs twice.
    pub open spec fn wf(&self) -> bool {
        forall|i: int, j: int| 0 <= i < j < self.entries@.len()
            ==> self.entries@[i].panel_id@ != self.entries@[j].panel_id@
    }

    /// Whether panel `id` has a handle.
    pub open spec fn has(&self, id: Seq<char>) -> bool {
        exists|i: int| 0 <= i < self.entries@.len() && self.entries@[i].panel_id@ == id
    }

    /// Where panel `id`'s entry stands.
    pub open spec fn slot(&self, id: Seq<char>) -> int {
        choose|i: int| 0 <= i < self.entries@.len() && self.entries@[i].panel_id@ == id
    }

    /// The handle of panel `id`.
    pub open spec fn handle(&self, id: Seq<char>) -> HandleView {
        self.entries@[self.slot(id)].handle@
    }

    /// An entry is found where it stands.
    pub proof fn lemma_slot(&self, i: int)
        requires
            self.wf(),
            0 <= i < self.entries@.len(),
        ensures
            self.has(self.entries@[i].panel_id@),
            self.slot(self.entries@[i].panel_id@) == i,
            self.handle(self.entries@[i].panel_id@) == self.entries@[i].handle@,
    {
        let k = self.entries@[i].panel_id@;
        assert(self.has(k));
        let j = self.slot(k);
        if j != i {
            if j < i {
                assert(self.entries@[j].panel_id@ != self.entries@[i].panel_id@);
            } else {
                assert(self.entries@[i].panel_id@ != self.entries@[j].panel_id@);
            }
        }
    }

    /// An empty registry.
    pub fn new() -> (r: ThumbnailManager)
        ensures
            r.wf(),
            r.entries@.len() == 0,
            r.next_id == 0,
            r.source_lifecycle_hook is None,
    {
        ThumbnailManager { entries: Vec::new(), next_id: 0, source_lifecycle_hook: None }
    }

    /// A fresh panel id, `wb_panel_<n>` with `n` counting up from 1.
    pub fn next_panel_id(&mut self) -> (r: String)
        requires
            old(self).next_id < u32::MAX,
        ensures
            final(self).next_id == old(self).next_id + 1,
            r@ == "wb_panel_"@ + decimal(final(self).next_id as nat),
            final(self).entries == old(self).entries,
            final(self).source_lifecycle_hook == old(self).source_lifecycle_hook,
    {
        self.next_id = self.next_id + 1;
        let mut id = "wb_panel_".to_owned();
        push_decimal(&mut id, self.next_id);
        id
    }

    /// Where panel `panel_id`'s entry stands, if it has one.
    pub fn position(&self, panel_id: &str) -> (r: Option<usize>)
        requires
            self.wf(),
        ensures
            match r {
                Some(i) => i < self.entries@.len() && self.entries@[i as int].panel_id@ == panel_id@
                    && self.slot(panel_id@) == i,
                None => !self.has(panel_id@),
            },
    {
        let mut i: usize = 0;
        while i < self.entries.len()
            invariant
                self.wf(),
                i <= self.entries@.len(),
                forall|k: int| 0 <= k < i ==> self.entries@[k].panel_id@ != panel_id@,
            decreases self.entries@.len() - i,
        {
            if str_eq(self.entries[i].panel_id.as_str(), panel_id) {
                proof {
                    self.lemma_slot(i as int);
                }
                return Some(i);
            }
            i = i + 1;
        }
        None
    }

    /// The source window of panel `panel_id`'s thumbnail.
    pub fn source_hwnd(&self, panel_id: &str) -> (r: Option<isize>)
        requires
            self.wf(),
        ensures
            self.has(panel_id@) ==> r == Some(self.handle(panel_id@).source_hwnd),
            !self.has(panel_id@) ==> r is None,
    {
        match self.position(panel_id) {
            Some(i) => Some(self.entries[i].handle.source_hwnd),
            None => None,
        }
    }

    /// Removes panel `panel_id`'s handle and hands it back.
    pub fn take(&mut self, panel_id: &str) -> (r: Option<ThumbnailHandle>)
        requires
            old(self).wf(),
        ensures
            final(self).wf(),
            final(self).next_id == old(self).next_id,
            final(self).source_lifecycle_hook == old(self).source_lifecycle_hook,
            old(self).has(panel_id@) ==> {
                &&& r matches Some(h) && h@ == old(self).handle(panel_id@)
                &&& final(self).ids() == old(self).ids().remove(old(self).slot(panel_id@))
            },
            !old(self).has(panel_id@) ==> r is None && *final(self) == *old(self),
            forall|k: Seq<char>| #[trigger] final(self).has(k) == (old(self).has(k) && k != panel_id@),
            forall|k: Seq<char>| #[trigger] final(self).has(k) ==> final(self).handle(k) == old(self).handle(k),
    {
        match self.position(panel_id) {
            None => None,
            Some(i) => {
                let ghost before = *self;
                let e = self.entries.remove(i);
                proof {
                    assert(self.ids() =~= before.ids().remove(i as int));
                    assert forall|k: Seq<char>| #[trigger] self.has(k) == (before.has(k) && k != panel_id@) by {
                        if self.has(k) {
                            let j = choose|j: int| 0 <= j < self.entries@.len() && self.entries@[j].panel_id@ == k;
                            let oj = if j < i { j } else { j + 1 };
                            assert(before.entries@[oj].panel_id@ == k);
                            if k == panel_id@ {
                                assert(before.entries@[i as int].panel_id@ == panel_id@);
                                if oj < i { assert(before.entries@[oj].panel_id@ != before.entries@[i as int].panel_id@); }
                                else { assert(before.entries@[i as int].panel_id@ != before.entries@[oj].panel_id@); }
                            }
                        }
                        if before.has(k) && k != panel_id@ {
                            let j = choose|j: int| 0 <= j < before.entries@.len() && before.entries@[j].panel_id@ == k;
                            assert(j != i);
                            let nj = if j < i { j } else { j - 1 };
                            assert(self.entries@[nj].panel_id@ == k);
                        }
                    }
                    assert forall|k: Seq<char>| #[trigger] self.has(k) implies self.handle(k) == before.handle(k) by {
                        let j = self.slot(k);
                        let oj = if j < i { j } else { j + 1 };
                        assert(before.entries@[oj] == self.entries@[j]);
                        before.lemma_slot(oj);
                    }
                }
                Some(e.handle)
            },
        }
    }

    /// Gives panel `panel_id` the handle `handle`, replacing any it had.
    pub fn insert(&mut self, panel_id: String, handle: ThumbnailHandle)
        requires
            old(self).wf(),
        ensures
            final(self).wf(),
            final(self).next_id == old(self).next_id,
            final(self).source_lifecycle_hook == old(self).source_lifecycle_hook,
            final(self).has(panel_id@),
            final(self).handle(panel_id@) == handle@,
            !old(self).has(panel_id@) ==> final(self).ids() == old(self).ids().push(panel_id@),
            old(self).has(panel_id@) ==> final(self).ids() == old(self).ids(),
            forall|k: Seq<char>| #[trigger] final(self).has(k) == (old(self).has(k) || k == panel_id@),
            forall|k: Seq<char>| k != panel_id@ && #[trigger] final(self).has(k)
                ==> final(self).handle(k) == old(self).handle(k),
    {
        let ghost before = *self;
        match self.position(panel_id.as_str()) {
            Some(i) => {
                let ghost id = panel_id@;
                self.entries.set(i, ThumbnailEntry { panel_id, handle });
                proof {
                    assert(self.ids() =~= before.ids());
                    assert(self.wf());
                    assert forall|k: Seq<char>| #[trigger] self.has(k) == (before.has(k) || k == id) by {
                        if before.has(k) {
                            let j = choose|j: int| 0 <= j < before.entries@.len() && before.entries@[j].panel_id@ == k;
                            assert(self.entries@[j].panel_id@ == k);
                        }
                        if self.has(k) {
                            let j = choose|j: int| 0 <= j < self.entries@.len() && self.entries@[j].panel_id@ == k;
                            assert(before.entries@[j].panel_id@ == k);
                        }
                    }
                    self.lemma_slot(i as int);
                    assert forall|k: Seq<char>| k != id && #[trigger] self.has(k)
                        implies self.handle(k) == before.handle(k) by {
                        let j = self.slot(k);
                        assert(j != i);
                        assert(before.entries@[j] == self.entries@[j]);
                        before.lemma_slot(j);
                    }
                }
            },
            None => {
                let ghost id = panel_id@;
                self.entries.push(ThumbnailEntry { panel_id, handle });
                proof {
                    let n = before.entries@.len();
                    assert(self.ids() =~= before.ids().push(id));
                    assert forall|a: int, b: int| 0 <= a < b < self.entries@.len()
                        implies self.entries@[a].panel_id@ != self.entries@[b].panel_id@ by {
                        if b == n {
                            assert(before.entries@[a].panel_id@ != id);
                        }
                    }
                    assert forall|k: Seq<char>| #[trigger] self.has(k) == (before.has(k) || k == id) by {
                        if before.has(k) {
                            let j = choose|j: int| 0 <= j < before.entries@.len() && before.entries@[j].panel_id@ == k;
                            assert(self.entries@[j].panel_id@ == k);
                        }
                        if k == id {
                            assert(self.entries@[n as int].panel_id@ == k);
                        }
                        if self.has(k) {
                            let j = choose|j: int| 0 <= j < self.entries@.len() && self.entries@[j].panel_id@ == k;
                            if j < n { assert(before.entries@[j].panel_id@ == k); }
                        }
                    }
                    self.lemma_slot(n as int);
                    assert forall|k: Seq<char>| k != id && #[trigger] self.has(k)
                        implies self.handle(k) == before.handle(k) by {
                        let j = self.slot(k);
                        assert(j != n);
                        assert(before.entries@[j] == self.entries@[j]);
                        before.lemma_slot(j);
                    }
                }
            },
        }
    }
}

/// Panel ids handed out by different counter values differ.
pub proof fn lemma_panel_ids_fresh(a: nat, b: nat)
    requires
        a != b,
    ensures
        "wb_panel_"@ + decimal(a) != "wb_panel_"@ + decimal(b),
{
    if "wb_panel_"@ + decimal(a) == "wb_panel_"@ + decimal(b) {
        let p = "wb_panel_"@;
        assert(decimal(a) =~= ("wb_panel_"@ + decimal(a)).subrange(p.len() as int, ("wb_panel_"@ + decimal(a)).len() as int));
        assert(decimal(b) =~= ("wb_panel_"@ + decimal(b)).subrange(p.len() as int, ("wb_panel_"@ + decimal(b)).len() as int));
        lemma_decimal_injective(a, b);
    }
}

/// The segment a new thumbnail starts with: hidden, drawing nowhere yet.
pub open spec fn initial_segment(thumbnail_id: isize) -> ThumbnailSegment {
    ThumbnailSegment {
        thumbnail_id,
        dest_rect: Rect { left: 0, top: 0, right: 100, bottom: 100 },
        source_rect: None,
        visible: false,
    }
}

/// A spare segment: hidden, one pixel large.
pub open spec fn hidden_segment(thumbnail_id: isize) -> ThumbnailSegment {
    ThumbnailSegment {
        thumbnail_id,
        dest_rect: Rect { left: 0, top: 0, right: 1, bottom: 1 },
        source_rect: None,
        visible: false,
    }
}

/// What the caller does after a layout request was checked.
pub enum PlacementStep {
    /// The request fails with `error`; the listed thumbnails are to be released
    /// (their source window is gone and its handle was dropped).
    Fail { error: String, release: Vec<isize> },
    /// Register a spare thumbnail from `source_hwnd` into `dest_hwnd`, hand it to
    /// `add_segment`, then place `dest_rect`.
    AddSegment { dest_hwnd: isize, source_hwnd: isize, dest_rect: Rect },
    /// Place `dest_rect`.
    Place { dest_rect: Rect },
}

/// The destination rectangle of a panel at `x`, `y` of size `width` × `height`,
/// if its far edges fit in `i32`.
pub open spec fn dest_rect_spec(x: i32, y: i32, width: i32, height: i32) -> Option<Rect> {
    if x + width <= i32::MAX && y + height <= i32::MAX && x + width >= i32::MIN && y + height >= i32::MIN {
        Some(Rect { left: x, top: y, right: (x + width) as i32, bottom: (y + height) as i32 })
    } else {
        None
    }
}

impl ThumbnailManager {
    /// Checks a registration. The workbench and the source window must still
    /// exist; then any handle the panel had is dropped and its thumbnails are
    /// listed for release.
    pub fn begin_register(&mut self, panel_id: &str, dest_alive: bool, source_alive: bool)
        -> (r: Result<Vec<isize>, String>)
        requires
            old(self).wf(),
        ensures
            final(self).wf(),
            !dest_alive ==> *final(self) == *old(self)
                && (r matches Err(e) && e@ == "Workbench window is no longer available"@),
            dest_alive && !source_alive ==> *final(self) == *old(self)
                && (r matches Err(e) && e@ == "Thumbnail source window is no longer available"@),
            dest_alive && source_alive ==> {
                &&& r matches Ok(ids) && ids@ == (if old(self).has(panel_id@) {
                    segment_ids(old(self).handle(panel_id@).segments) } else { seq![] })
                &&& !final(self).has(panel_id@)
                &&& forall|k: Seq<char>| #[trigger] final(self).has(k) == (old(self).has(k) && k != panel_id@)
                &&& forall|k: Seq<char>| #[trigger] final(self).has(k) ==> final(self).handle(k) == old(self).handle(k)
                &&& final(self).next_id == old(self).next_id
            },
    {
        if !dest_alive {
            return Err("Workbench window is no longer available".to_owned());
        }
        if !source_alive {
            return Err("Thumbnail source window is no longer available".to_owned());
        }
        match self.take(panel_id) {
            Some(h) => Ok(thumbnail_ids(&h.segments)),
            None => {
                let v: Vec<isize> = Vec::new();
                assert(v@ =~= seq![]);
                Ok(v)
            },
        }
    }

    /// Records a registered thumbnail for `panel_id`: one hidden segment, opaque,
    /// with the source's client size. Returns that size.
    pub fn finish_register(
        &mut self,
        panel_id: String,
        dest_hwnd: isize,
        source_hwnd: isize,
        thumbnail_id: isize,
        source_size: ThumbnailSourceSize,
    ) -> (r: ThumbnailSourceSize)
        requires
            old(self).wf(),
        ensures
            r == source_size,
            final(self).wf(),
            final(self).next_id == old(self).next_id,
            final(self).has(panel_id@),
            final(self).handle(panel_id@) == (HandleView {
                dest_hwnd,
                source_hwnd,
                source_size,
                segments: seq![initial_segment(thumbnail_id)],
                opacity: 255,
            }),
            forall|k: Seq<char>| #[trigger] final(self).has(k) == (old(self).has(k) || k == panel_id@),
            forall|k: Seq<char>| k != panel_id@ && #[trigger] final(self).has(k)
                ==> final(self).handle(k) == old(self).handle(k),
    {
        let mut segments: Vec<ThumbnailSegment> = Vec::new();
        segments.push(ThumbnailSegment {
            thumbnail_id,
            dest_rect: Rect { left: 0, top: 0, right: 100, bottom: 100 },
            source_rect: None,
            visible: false,
        });
        assert(segments@ =~= seq![initial_segment(thumbnail_id)]);
        let handle = ThumbnailHandle { dest_hwnd, source_hwnd, source_size, segments, opacity: 255 };
        self.insert(panel_id, handle);
        source_size
    }

    /// Checks a request to show panel `panel_id` at `x`, `y`, `width` × `height`.
    /// Refused, in this order: a size that is not positive; an unknown panel; a
    /// source window that is gone (the handle is then dropped); a rectangle
    /// whose far edges overflow. Otherwise the panel gets a spare segment first
    /// when it has none, and then the rectangle is placed.
    pub fn begin_update_rect(
        &mut self,
        panel_id: &str,
        x: i32,
        y: i32,
        width: i32,
        height: i32,
        source_alive: bool,
    ) -> (r: PlacementStep)
        requires
            old(self).wf(),
        ensures
            final(self).wf(),
            final(self).next_id == old(self).next_id,
            (width <= 0 || height <= 0) ==> *final(self) == *old(self)
                && (r matches PlacementStep::Fail { error, release }
                    && error@ == "Thumbnail destination must have positive dimensions"@ && release@.len() == 0),
            !(width <= 0 || height <= 0) && !old(self).has(panel_id@) ==> *final(self) == *old(self)
                && (r matches PlacementStep::Fail { error, release }
                    && error@ == "Thumbnail not found"@ && release@.len() == 0),
            !(width <= 0 || height <= 0) && old(self).has(panel_id@) && !source_alive ==> {
                &&& r matches PlacementStep::Fail { error, release }
                    && error@ == "Thumbnail source window is no longer available"@
                    && release@ == segment_ids(old(self).handle(panel_id@).segments)
                &&& forall|k: Seq<char>| #[trigger] final(self).has(k) == (old(self).has(k) && k != panel_id@)
                &&& forall|k: Seq<char>| #[trigger] final(self).has(k) ==> final(self).handle(k) == old(self).handle(k)
            },
            !(width <= 0 || height <= 0) && old(self).has(panel_id@) && source_alive ==> {
                &&& *final(self) == *old(self)
                &&& match dest_rect_spec(x, y, width, height) {
                    None => r matches PlacementStep::Fail { error, release }
                        && error@ == "Thumbnail destination rectangle is out of range"@ && release@.len() == 0,
                    Some(d) => if old(self).handle(panel_id@).segments.len() == 0 {
                        r == PlacementStep::AddSegment {
                            dest_hwnd: old(self).handle(panel_id@).dest_hwnd,
                            source_hwnd: old(self).handle(panel_id@).source_hwnd,
                            dest_rect: d,
                        }
                    } else {
                        r == PlacementStep::Place { dest_rect: d }
                    },
                }
            },
    {
        if width <= 0 || height <= 0 {
            return PlacementStep::Fail {
                error: "Thumbnail destination must have positive dimensions".to_owned(),
                release: Vec::new(),
            };
        }
        let i = match self.position(panel_id) {
            Some(i) => i,
            None => {
                return PlacementStep::Fail { error: "Thumbnail not found".to_owned(), release: Vec::new() };
            },
        };
        if !source_alive {
            let release = match self.take(panel_id) {
                Some(h) => thumbnail_ids(&h.segments),
                None => Vec::new(),
            };
            return PlacementStep::Fail {
                error: "Thumbnail source window is no longer available".to_owned(),
                release,
            };
        }
        let right = x.checked_add(width);
        let bottom = y.checked_add(height);
        match (right, bottom) {
            (Some(right), Some(bottom)) => {
                let dest_rect = Rect { left: x, top: y, right, bottom };
                let handle = &self.entries[i].handle;
                if handle.segments.len() == 0 {
                    PlacementStep::AddSegment {
                        dest_hwnd: handle.dest_hwnd,
                        source_hwnd: handle.source_hwnd,
                        dest_rect,
                    }
                } else {
                    PlacementStep::Place { dest_rect }
                }
            },
            _ => PlacementStep::Fail {
                error: "Thumbnail destination rectangle is out of range".to_owned(),
                release: Vec::new(),
            },
        }
    }

    /// Replaces panel `panel_id`'s segments, keeping everything else.
    fn replace_segments(&mut self, i: usize, segments: Vec<ThumbnailSegment>)
        requires
            old(self).wf(),
            i < old(self).entries@.len(),
        ensures
            final(self).wf(),
            final(self).next_id == old(self).next_id,
            final(self).source_lifecycle_hook == old(self).source_lifecycle_hook,
            final(self).ids() == old(self).ids(),
            forall|k: Seq<char>| #[trigger] final(self).has(k) == old(self).has(k),
            final(self).handle(old(self).entries@[i as int].panel_id@) == (HandleView {
                segments: segments@,
                ..old(self).handle(old(self).entries@[i as int].panel_id@)
            }),
            forall|k: Seq<char>| k != old(self).entries@[i as int].panel_id@ && #[trigger] final(self).has(k)
                ==> final(self).handle(k) == old(self).handle(k),
    {
        let ghost before = *self;
        let ghost key = self.entries@[i as int].panel_id@;
        proof {
            before.lemma_slot(i as int);
        }
        let mut e = self.entries.remove(i);
        e.handle.segments = segments;
        self.entries.insert(i, e);
        proof {
            assert(self.ids() =~= before.ids());
            assert forall|a: int, b: int| 0 <= a < b < self.entries@.len()
                implies self.entries@[a].panel_id@ != self.entries@[b].panel_id@ by {
                assert(self.ids()[a] == self.entries@[a].panel_id@);
                assert(self.ids()[b] == self.entries@[b].panel_id@);
                assert(before.ids()[a] == before.entries@[a].panel_id@);
                assert(before.ids()[b] == before.entries@[b].panel_id@);
            }
            same_ids_same_membership(&before, self);
            self.lemma_slot(i as int);
            assert forall|k: Seq<char>| k != key && #[trigger] self.has(k)
                implies self.handle(k) == before.handle(k) by {
                let j = self.slot(k);
                assert(j != i);
                assert(before.entries@[j] == self.entries@[j]);
                before.lemma_slot(j);
            }
        }
    }

    /// Gives panel `panel_id` one more segment, hidden, drawn by the registered
    /// thumbnail `thumbnail_id`.
    pub fn add_segment(&mut self, panel_id: &str, thumbnail_id: isize)
        requires
            old(self).wf(),
            old(self).has(panel_id@),
        ensures
            final(self).wf(),
            final(self).next_id == old(self).next_id,
            final(self).ids() == old(self).ids(),
            forall|k: Seq<char>| #[trigger] final(self).has(k) == old(self).has(k),
            final(self).handle(panel_id@) == (HandleView {
                segments: old(self).handle(panel_id@).segments.push(hidden_segment(thumbnail_id)),
                ..old(self).handle(panel_id@)
            }),
            forall|k: Seq<char>| k != panel_id@ && #[trigger] final(self).has(k)
                ==> final(self).handle(k) == old(self).handle(k),
    {
        let i = self.position(panel_id).unwrap();
        proof {
            self.lemma_slot(i as int);
        }
        let mut segs = self.entries[i].handle.segments.clone();
        segs.push(ThumbnailSegment {
            thumbnail_id,
            dest_rect: Rect { left: 0, top: 0, right: 1, bottom: 1 },
            source_rect: None,
            visible: false,
        });
        self.replace_segments(i, segs);
    }

    /// Shows panel `panel_id` in one segment at `dest_rect`: the first segment
    /// now draws the whole source into `dest_rect`, and the other segments are
    /// dropped and listed for release. Returns those thumbnails and the segment
    /// to hand to the compositor.
    pub fn place_rect(&mut self, panel_id: &str, dest_rect: Rect) -> (r: (Vec<isize>, ThumbnailSegment))
        requires
            old(self).wf(),
            old(self).has(panel_id@),
            old(self).handle(panel_id@).segments.len() > 0,
        ensures
            final(self).wf(),
            final(self).next_id == old(self).next_id,
            final(self).ids() == old(self).ids(),
            forall|k: Seq<char>| #[trigger] final(self).has(k) == old(self).has(k),
            ({
                let old_segs = old(self).handle(panel_id@).segments;
                let seg = ThumbnailSegment { dest_rect, source_rect: None, visible: true, ..old_segs[0] };
                &&& r.0@ == segment_ids(old_segs.subrange(1, old_segs.len() as int))
                &&& r.1 == seg
                &&& final(self).handle(panel_id@) == (HandleView { segments: seq![seg], ..old(self).handle(panel_id@) })
            }),
            forall|k: Seq<char>| k != panel_id@ && #[trigger] final(self).has(k)
                ==> final(self).handle(k) == old(self).handle(k),
    {
        let i = self.position(panel_id).unwrap();
        proof {
            self.lemma_slot(i as int);
        }
        let released = thumbnail_ids_from(&self.entries[i].handle.segments, 1);
        let first = self.entries[i].handle.segments[0];
        let seg = ThumbnailSegment { dest_rect, source_rect: None, visible: true, ..first };
        let mut segs: Vec<ThumbnailSegment> = Vec::new();
        segs.push(seg);
        assert(segs@ =~= seq![seg]);
        self.replace_segments(i, segs);
        (released, seg)
    }

    /// Drops panel `panel_id`'s handle and lists its thumbnails for release
    /// (`unregister_by_panel_id`); an unknown panel releases nothing.
    pub fn unregister_by_panel_id(&mut self, panel_id: &str) -> (r: Vec<isize>)
        requires
            old(self).wf(),
        ensures
            final(self).wf(),
            final(self).next_id == old(self).next_id,
            r@ == (if old(self).has(panel_id@) { segment_ids(old(self).handle(panel_id@).segments) } else { seq![] }),
            forall|k: Seq<char>| #[trigger] final(self).has(k) == (old(self).has(k) && k != panel_id@),
            forall|k: Seq<char>| #[trigger] final(self).has(k) ==> final(self).handle(k) == old(self).handle(k),
    {
        match self.take(panel_id) {
            Some(h) => thumbnail_ids(&h.segments),
            None => {
                let v: Vec<isize> = Vec::new();
                assert(v@ =~= seq![]);
                v
            },
        }
    }

    /// Drops every handle and lists all their thumbnails for release (`unregister_all`).
    pub fn unregister_all(&mut self) -> (r: Vec<isize>)
        requires
            old(self).wf(),
        ensures
            final(self).wf(),
            final(self).entries@.len() == 0,
            final(self).next_id == old(self).next_id,
            final(self).source_lifecycle_hook == old(self).source_lifecycle_hook,
            r@ == released_ids(old(self).entries@),
    {
        let mut out: Vec<isize> = Vec::new();
        let mut i: usize = 0;
        while i < self.entries.len()
            invariant
                i <= self.entries@.len(),
                out@ == released_ids(self.entries@.subrange(0, i as int)),
            decreases self.entries@.len() - i,
        {
            let mut ids = thumbnail_ids(&self.entries[i].handle.segments);
            out.append(&mut ids);
            proof {
                let next = self.entries@.subrange(0, i + 1);
                assert(next.drop_last() =~= self.entries@.subrange(0, i as int));
            }
            i = i + 1;
        }
        proof {
            assert(self.entries@.subrange(0, self.entries@.len() as int) =~= self.entries@);
        }
        self.entries = Vec::new();
        out
    }
}

/// The thumbnails of a list of entries, entry by entry and in segment order.
pub open spec fn released_ids(entries: Seq<ThumbnailEntry>) -> Seq<isize>
    decreases entries.len(),
{
    if entries.len() == 0 {
        seq![]
    } else {
        released_ids(entries.drop_last()) + segment_ids(entries.last().handle.segments@)
    }
}

/// Whether an entry mirrors the window `source_hwnd`.
pub open spec fn mirrors(source_hwnd: isize) -> spec_fn(ThumbnailEntry) -> bool {
    |e: ThumbnailEntry| e.handle.source_hwnd == source_hwnd
}

/// Whether an entry mirrors another window than `source_hwnd`.
pub open spec fn keeps_source(source_hwnd: isize) -> spec_fn(ThumbnailEntry) -> bool {
    |e: ThumbnailEntry| e.handle.source_hwnd != source_hwnd
}

/// The panel ids of a list of entries.
pub open spec fn entry_ids(entries: Seq<ThumbnailEntry>) -> Seq<Seq<char>> {
    entries.map_values(|e: ThumbnailEntry| e.panel_id@)
}

/// The visible parts of `full`: each of `rects` cut down to `full`, those
/// without area left out, in order.
pub open spec fn visible_parts(full: Rect, rects: Seq<Rect>) -> Seq<Rect>
    decreases rects.len(),
{
    if rects.len() == 0 {
        seq![]
    } else {
        let rest = visible_parts(full, rects.drop_last());
        match intersection(full, rects.last()) {
            Some(r) => rest.push(r),
            None => rest,
        }
    }
}

/// `segments` with every segment hidden.
pub open spec fn all_hidden(segments: Seq<ThumbnailSegment>) -> Seq<ThumbnailSegment> {
    segments.map_values(|s: ThumbnailSegment| ThumbnailSegment { visible: false, ..s })
}

/// What the caller does after a multi-part layout request was checked.
pub enum LayoutStep {
    /// The request fails with `error`, releasing the listed thumbnails.
    Fail { error: String, release: Vec<isize> },
    /// Nothing of the panel is visible: hand each of these (now hidden)
    /// segments to the compositor, ignoring failures, and succeed.
    Hide { segments: Vec<ThumbnailSegment>, opacity: u8 },
    /// Register `missing` spare thumbnails (adding each with `add_segment`),
    /// keep as many segments as there are `rects` (`trim_segments`), then place
    /// each rectangle in its segment (`place_segment`).
    Show { rects: Vec<Rect>, missing: usize, dest_hwnd: isize, source_hwnd: isize, source_size: ThumbnailSourceSize },
}

/// The visible parts of `full` among `rects`.
pub fn visible_parts_of(full: &Rect, rects: &Vec<Rect>) -> (r: Vec<Rect>)
    ensures
        r@ == visible_parts(*full, rects@),
{
    let mut out: Vec<Rect> = Vec::new();
    let mut i: usize = 0;
    while i < rects.len()
        invariant
            i <= rects@.len(),
            out@ == visible_parts(*full, rects@.subrange(0, i as int)),
        decreases rects@.len() - i,
    {
        assert(rects@.subrange(0, i + 1).drop_last() =~= rects@.subrange(0, i as int));
        assert(rects@.subrange(0, i + 1).last() == rects@[i as int]);
        match intersect_rect(full, &rects[i]) {
            Some(r) => out.push(r),
            None => {},
        }
        i = i + 1;
    }
    assert(rects@.subrange(0, rects@.len() as int) =~= rects@);
    out
}

impl ThumbnailManager {
    /// Checks a request to show the parts `visible_dest_rects` of panel
    /// `panel_id` laid out at `full_dest_rect` (`update_layout`). Refused, in
    /// this order: a layout without area; an unknown panel; a source window
    /// that is gone (the handle is then dropped). When no part is visible every
    /// segment is hidden; otherwise the caller is told how many segments to add.
    pub fn begin_layout(
        &mut self,
        panel_id: &str,
        full_dest_rect: Rect,
        visible_dest_rects: &Vec<Rect>,
        source_alive: bool,
    ) -> (r: LayoutStep)
        requires
            old(self).wf(),
        ensures
            final(self).wf(),
            final(self).next_id == old(self).next_id,
            (width_of(full_dest_rect) <= 0 || height_of(full_dest_rect) <= 0) ==> *final(self) == *old(self)
                && (r matches LayoutStep::Fail { error, release }
                    && error@ == "Thumbnail destination must have positive dimensions"@ && release@.len() == 0),
            !(width_of(full_dest_rect) <= 0 || height_of(full_dest_rect) <= 0) && !old(self).has(panel_id@)
                ==> *final(self) == *old(self) && (r matches LayoutStep::Fail { error, release }
                    && error@ == "Thumbnail not found"@ && release@.len() == 0),
            !(width_of(full_dest_rect) <= 0 || height_of(full_dest_rect) <= 0) && old(self).has(panel_id@)
                && !source_alive ==> {
                &&& r matches LayoutStep::Fail { error, release }
                    && error@ == "Thumbnail source window is no longer available"@
                    && release@ == segment_ids(old(self).handle(panel_id@).segments)
                &&& forall|k: Seq<char>| #[trigger] final(self).has(k) == (old(self).has(k) && k != panel_id@)
                &&& forall|k: Seq<char>| #[trigger] final(self).has(k) ==> final(self).handle(k) == old(self).handle(k)
            },
            !(width_of(full_dest_rect) <= 0 || height_of(full_dest_rect) <= 0) && old(self).has(panel_id@)
                && source_alive ==> {
                let h = old(self).handle(panel_id@);
                let parts = visible_parts(full_dest_rect, visible_dest_rects@);
                if parts.len() == 0 {
                    &&& r matches LayoutStep::Hide { segments, opacity }
                        && segments@ == all_hidden(h.segments) && opacity == h.opacity
                    &&& final(self).ids() == old(self).ids()
                    &&& forall|k: Seq<char>| #[trigger] final(self).has(k) == old(self).has(k)
                    &&& final(self).handle(panel_id@) == (HandleView { segments: all_hidden(h.segments), ..h })
                    &&& forall|k: Seq<char>| k != panel_id@ && #[trigger] final(self).has(k)
                        ==> final(self).handle(k) == old(self).handle(k)
                } else {
                    &&& *final(self) == *old(self)
                    &&& r matches LayoutStep::Show { rects, missing, dest_hwnd, source_hwnd, source_size }
                        && rects@ == parts
                        && missing == (if parts.len() > h.segments.len() { parts.len() - h.segments.len() } else { 0 })
                        && dest_hwnd == h.dest_hwnd && source_hwnd == h.source_hwnd && source_size == h.source_size
                }
            },
    {
        if (full_dest_rect.right as i64) - (full_dest_rect.left as i64) <= 0
            || (full_dest_rect.bottom as i64) - (full_dest_rect.top as i64) <= 0 {
            return LayoutStep::Fail {
                error: "Thumbnail destination must have positive dimensions".to_owned(),
                release: Vec::new(),
            };
        }
        let i = match self.position(panel_id) {
            Some(i) => i,
            None => {
                return LayoutStep::Fail { error: "Thumbnail not found".to_owned(), release: Vec::new() };
            },
        };
        if !source_alive {
            let release = match self.take(panel_id) {
                Some(h) => thumbnail_ids(&h.segments),
                None => Vec::new(),
            };
            return LayoutStep::Fail {
                error: "Thumbnail source window is no longer available".to_owned(),
                release,
            };
        }
        proof {
            self.lemma_slot(i as int);
        }
        let rects = visible_parts_of(&full_dest_rect, visible_dest_rects);
        if rects.len() == 0 {
            let old_segs = &self.entries[i].handle.segments;
            let mut hidden: Vec<ThumbnailSegment> = Vec::new();
            let mut k: usize = 0;
            while k < old_segs.len()
                invariant
                    k <= old_segs@.len(),
                    hidden@ == all_hidden(old_segs@.subrange(0, k as int)),
                decreases old_segs@.len() - k,
            {
                hidden.push(ThumbnailSegment { visible: false, ..old_segs[k] });
                assert(all_hidden(old_segs@.subrange(0, k + 1)) =~= all_hidden(old_segs@.subrange(0, k as int)).push(ThumbnailSegment { visible: false, ..old_segs@[k as int] }));
                k = k + 1;
            }
            assert(old_segs@.subrange(0, old_segs@.len() as int) =~= old_segs@);
            let opacity = self.entries[i].handle.opacity;
            let applied = hidden.clone();
            self.replace_segments(i, hidden);
            LayoutStep::Hide { segments: applied, opacity }
        } else {
            let h = &self.entries[i].handle;
            let missing = if rects.len() > h.segments.len() { rects.len() - h.segments.len() } else { 0 };
            LayoutStep::Show {
                rects,
                missing,
                dest_hwnd: h.dest_hwnd,
                source_hwnd: h.source_hwnd,
                source_size: h.source_size,
            }
        }
    }

    /// Keeps the first `count` segments of panel `panel_id` and lists the
    /// thumbnails of the others for release.
    pub fn trim_segments(&mut self, panel_id: &str, count: usize) -> (r: Vec<isize>)
        requires
            old(self).wf(),
            old(self).has(panel_id@),
            count <= old(self).handle(panel_id@).segments.len(),
        ensures
            final(self).wf(),
            final(self).next_id == old(self).next_id,
            final(self).ids() == old(self).ids(),
            forall|k: Seq<char>| #[trigger] final(self).has(k) == old(self).has(k),
            ({
                let segs = old(self).handle(panel_id@).segments;
                &&& r@ == segment_ids(segs.subrange(count as int, segs.len() as int))
                &&& final(self).handle(panel_id@) == (HandleView {
                    segments: segs.subrange(0, count as int),
                    ..old(self).handle(panel_id@)
                })
            }),
            forall|k: Seq<char>| k != panel_id@ && #[trigger] final(self).has(k)
                ==> final(self).handle(k) == old(self).handle(k),
    {
        let i = self.position(panel_id).unwrap();
        proof {
            self.lemma_slot(i as int);
        }
        let released = thumbnail_ids_from(&self.entries[i].handle.segments, count);
        let mut kept: Vec<ThumbnailSegment> = Vec::new();
        let mut k: usize = 0;
        while k < count
            invariant
                k <= count <= self.entries@[i as int].handle.segments@.len(),
                i < self.entries@.len(),
                kept@ == self.entries@[i as int].handle.segments@.subrange(0, k as int),
            decreases count - k,
        {
            kept.push(self.entries[i].handle.segments[k]);
            assert(kept@ =~= self.entries@[i as int].handle.segments@.subrange(0, k + 1));
            k = k + 1;
        }
        self.replace_segments(i, kept);
        released
    }

    /// Makes segment `index` of panel `panel_id` draw `source_rect` of the
    /// source into `dest_rect`, visible, and returns it for the compositor.
    pub fn place_segment(&mut self, panel_id: &str, index: usize, dest_rect: Rect, source_rect: Rect)
        -> (r: ThumbnailSegment)
        requires
            old(self).wf(),
            old(self).has(panel_id@),
            index < old(self).handle(panel_id@).segments.len(),
        ensures
            final(self).wf(),
            final(self).next_id == old(self).next_id,
            final(self).ids() == old(self).ids(),
            forall|k: Seq<char>| #[trigger] final(self).has(k) == old(self).has(k),
            ({
                let segs = old(self).handle(panel_id@).segments;
                let seg = ThumbnailSegment { dest_rect, source_rect: Some(source_rect), visible: true, ..segs[index as int] };
                &&& r == seg
                &&& final(self).handle(panel_id@) == (HandleView {
                    segments: segs.update(index as int, seg),
                    ..old(self).handle(panel_id@)
                })
            }),
            forall|k: Seq<char>| k != panel_id@ && #[trigger] final(self).has(k)
                ==> final(self).handle(k) == old(self).handle(k),
    {
        let i = self.position(panel_id).unwrap();
        proof {
            self.lemma_slot(i as int);
        }
        let mut segs = self.entries[i].handle.segments.clone();
        let seg = ThumbnailSegment { dest_rect, source_rect: Some(source_rect), visible: true, ..segs[index] };
        segs.set(index, seg);
        self.replace_segments(i, segs);
        seg
    }
}

/// The texts of a list of strings.
pub open spec fn texts(v: Seq<String>) -> Seq<Seq<char>> {
    v.map_values(|s: String| s@)
}

/// Whether `v` holds the text `s`.
pub fn contains_text(v: &Vec<String>, s: &str) -> (r: bool)
    ensures
        r == texts(v@).contains(s@),
{
    let mut i: usize = 0;
    while i < v.len()
        invariant
            i <= v@.len(),
            forall|k: int| 0 <= k < i ==> v@[k]@ != s@,
        decreases v@.len() - i,
    {
        if str_eq(v[i].as_str(), s) {
            assert(texts(v@)[i as int] == s@);
            return true;
        }
        i = i + 1;
    }
    proof {
        if texts(v@).contains(s@) {
            let k = choose|k: int| 0 <= k < texts(v@).len() && texts(v@)[k] == s@;
            assert(v@[k]@ == s@);
        }
    }
    false
}

/// The requested stacking order as it applies: each id counted at its first
/// occurrence, ids without a thumbnail left out.
pub open spec fn requested_order(ordered: Seq<Seq<char>>, present: Seq<Seq<char>>) -> Seq<Seq<char>>
    decreases ordered.len(),
{
    if ordered.len() == 0 {
        seq![]
    } else {
        let rest = requested_order(ordered.drop_last(), present);
        let k = ordered.last();
        if present.contains(k) && !rest.contains(k) {
            rest.push(k)
        } else {
            rest
        }
    }
}

/// Whether `s` is in strictly increasing code-point order.
pub open spec fn strictly_sorted(s: Seq<Seq<char>>) -> bool {
    forall|i: int, j: int| 0 <= i < j < s.len() ==> text_less(s[i], s[j])
}

/// Whether `order` is a stacking order for the panels `present` under the
/// request `ordered`: the panels that were not named, in id order, at the
/// bottom; the named ones above them, the last named on top.
pub open spec fn is_stack_order(order: Seq<Seq<char>>, ordered: Seq<Seq<char>>, present: Seq<Seq<char>>) -> bool {
    let top = requested_order(ordered, present);
    let bottom = order.subrange(0, order.len() - top.len());
    &&& order.len() >= top.len()
    &&& order.subrange(order.len() - top.len(), order.len() as int) == top
    &&& strictly_sorted(bottom)
    &&& forall|k: Seq<char>| #[trigger] bottom.contains(k) <==> present.contains(k) && !ordered.contains(k)
}

proof fn lemma_requested_order_members(ordered: Seq<Seq<char>>, present: Seq<Seq<char>>)
    ensures
        forall|k: Seq<char>| #[trigger] requested_order(ordered, present).contains(k)
            ==> present.contains(k) && ordered.contains(k),
    decreases ordered.len(),
{
    if ordered.len() > 0 {
        lemma_requested_order_members(ordered.drop_last(), present);
        let rest = requested_order(ordered.drop_last(), present);
        assert forall|k: Seq<char>| #[trigger] requested_order(ordered, present).contains(k)
            implies present.contains(k) && ordered.contains(k) by {
            if rest.contains(k) {
                let p = choose|p: int| 0 <= p < ordered.drop_last().len() && ordered.drop_last()[p] == k;
                assert(ordered[p] == k);
            } else {
                assert(ordered[ordered.len() - 1] == k);
            }
        }
    }
}

proof fn lemma_requested_order_complete(ordered: Seq<Seq<char>>, present: Seq<Seq<char>>)
    ensures
        forall|k: Seq<char>| present.contains(k) && ordered.contains(k)
            ==> #[trigger] requested_order(ordered, present).contains(k),
        requested_order(ordered, present).no_duplicates(),
    decreases ordered.len(),
{
    if ordered.len() > 0 {
        let prefix = ordered.drop_last();
        lemma_requested_order_complete(prefix, present);
        let rest = requested_order(prefix, present);
        assert forall|k: Seq<char>| present.contains(k) && ordered.contains(k)
            implies #[trigger] requested_order(ordered, present).contains(k) by {
            let p = choose|p: int| 0 <= p < ordered.len() && ordered[p] == k;
            if p < ordered.len() - 1 {
                assert(prefix[p] == k);
                assert(rest.contains(k));
                if present.contains(ordered.last()) && !rest.contains(ordered.last()) {
                    assert(rest.push(ordered.last())[rest.index_of(k)] == k);
                }
            } else {
                if !rest.contains(k) {
                    assert(rest.push(k)[rest.len() as int] == k);
                }
            }
        }
    }
}

/// Restacking keeps every thumbnail, once: a stacking order holds exactly the
/// panels there are, without repeats.
pub proof fn lemma_stack_order_is_permutation(
    order: Seq<Seq<char>>,
    ordered: Seq<Seq<char>>,
    present: Seq<Seq<char>>,
)
    requires
        is_stack_order(order, ordered, present),
    ensures
        forall|k: Seq<char>| #[trigger] order.contains(k) <==> present.contains(k),
        order.no_duplicates(),
{
    let top = requested_order(ordered, present);
    let n = order.len() - top.len();
    let bottom = order.subrange(0, n);
    lemma_requested_order_members(ordered, present);
    lemma_requested_order_complete(ordered, present);
    assert(order =~= bottom + top);
    assert forall|k: Seq<char>| #[trigger] order.contains(k) <==> present.contains(k) by {
        if order.contains(k) {
            let q = choose|q: int| 0 <= q < order.len() && order[q] == k;
            if q < n {
                assert(bottom[q] == k);
                assert(bottom.contains(k));
            } else {
                assert(top[q - n] == k);
                assert(top.contains(k));
            }
        }
        if present.contains(k) {
            if ordered.contains(k) {
                assert(top.contains(k));
                let q = choose|q: int| 0 <= q < top.len() && top[q] == k;
                assert(order[q + n] == k);
            } else {
                assert(bottom.contains(k));
                let q = choose|q: int| 0 <= q < bottom.len() && bottom[q] == k;
                assert(order[q] == k);
            }
        }
    }
    assert forall|i: int, j: int| 0 <= i < j < order.len() implies order[i] != order[j] by {
        if j < n {
            assert(text_less(bottom[i], bottom[j]));
            lemma_text_less_irreflexive(bottom[i]);
        } else if i >= n {
            assert(top[i - n] != top[j - n]);
        } else {
            assert(bottom.contains(order[i]));
            assert(top.contains(order[j]));
        }
    }
}

impl ThumbnailManager {
    /// The order to restack the thumbnails in (`sync_stack_order`), bottom
    /// first; `None` when nothing is to be done: no order was requested, or
    /// there is at most one thumbnail.
    pub fn stack_order(&self, ordered_panel_ids: &Vec<String>) -> (r: Option<Vec<String>>)
        requires
            self.wf(),
        ensures
            (ordered_panel_ids@.len() == 0 || self.entries@.len() <= 1) ==> r is None,
            !(ordered_panel_ids@.len() == 0 || self.entries@.len() <= 1) ==>
                (r matches Some(order) && is_stack_order(texts(order@), texts(ordered_panel_ids@), self.ids())),
    {
        if ordered_panel_ids.len() == 0 || self.entries.len() <= 1 {
            return None;
        }
        let ghost present = self.ids();
        let ghost ordered = texts(ordered_panel_ids@);
        // The requested part, first occurrences of present ids.
        let mut top: Vec<String> = Vec::new();
        let mut i: usize = 0;
        while i < ordered_panel_ids.len()
            invariant
                self.wf(),
                present == self.ids(),
                ordered == texts(ordered_panel_ids@),
                i <= ordered_panel_ids@.len(),
                texts(top@) == requested_order(ordered.subrange(0, i as int), present),
            decreases ordered_panel_ids@.len() - i,
        {
            let id = &ordered_panel_ids[i];
            assert(ordered.subrange(0, i + 1).drop_last() =~= ordered.subrange(0, i as int));
            assert(ordered.subrange(0, i + 1).last() == id@);
            let known = self.position(id.as_str()).is_some();
            proof {
                if known {
                    let j = self.slot(id@);
                    assert(present[j] == id@);
                    assert(present.contains(id@));
                } else if present.contains(id@) {
                    let j = choose|j: int| 0 <= j < present.len() && present[j] == id@;
                    assert(self.entries@[j].panel_id@ == id@);
                }
            }
            if known && !contains_text(&top, id.as_str()) {
                let ghost before = top@;
                top.push(id.clone());
                assert(texts(top@) =~= texts(before).push(id@));
            }
            i = i + 1;
        }
        assert(ordered.subrange(0, ordered.len() as int) =~= ordered);
        // The rest, sorted by id.
        let mut bottom: Vec<String> = Vec::new();
        let mut e: usize = 0;
        while e < self.entries.len()
            invariant
                self.wf(),
                present == self.ids(),
                ordered == texts(ordered_panel_ids@),
                e <= self.entries@.len(),
                strictly_sorted(texts(bottom@)),
                forall|k: Seq<char>| #[trigger] texts(bottom@).contains(k) <==>
                    (present.subrange(0, e as int).contains(k) && !ordered.contains(k)),
            decreases self.entries@.len() - e,
        {
            let id = &self.entries[e].panel_id;
            assert(present[e as int] == id@);
            assert(present.subrange(0, e + 1) =~= present.subrange(0, e as int).push(id@));
            let ghost prev = texts(bottom@);
            let named = contains_text(ordered_panel_ids, id.as_str());
            if !named {
                proof {
                    if texts(bottom@).contains(id@) {
                        let p = choose|p: int| 0 <= p < e && present.subrange(0, e as int)[p] == id@;
                        assert(self.entries@[p].panel_id@ == self.entries@[e as int].panel_id@);
                    }
                }
                insert_sorted(&mut bottom, id);
            }
            proof {
                assert forall|k: Seq<char>| #[trigger] texts(bottom@).contains(k) <==>
                    (present.subrange(0, e + 1).contains(k) && !ordered.contains(k)) by {
                    let p0 = present.subrange(0, e as int);
                    let p1 = present.subrange(0, e + 1);
                    if p1.contains(k) {
                        let q = choose|q: int| 0 <= q < p1.len() && p1[q] == k;
                        if q < e { assert(p0[q] == k); }
                    }
                    if p0.contains(k) {
                        let q = choose|q: int| 0 <= q < p0.len() && p0[q] == k;
                        assert(p1[q] == k);
                    }
                    assert(p1[e as int] == id@);
                    assert(prev.contains(k) <==> (p0.contains(k) && !ordered.contains(k)));
                }
            }
            e = e + 1;
        }
        assert(present.subrange(0, present.len() as int) =~= present);
        let ghost top_texts = texts(top@);
        let ghost bottom_texts = texts(bottom@);
        let mut order = bottom;
        let mut top = top;
        order.append(&mut top);
        proof {
            let all = texts(order@);
            assert(all =~= bottom_texts + top_texts);
            assert(all.subrange(0, all.len() - top_texts.len()) =~= bottom_texts);
            assert(all.subrange(all.len() - top_texts.len(), all.len() as int) =~= top_texts);
        }
        Some(order)
    }
}

/// Inserts `s` into the strictly sorted `v`, where it is not yet.
fn insert_sorted(v: &mut Vec<String>, s: &String)
    requires
        strictly_sorted(texts(old(v)@)),
        !texts(old(v)@).contains(s@),
    ensures
        strictly_sorted(texts(final(v)@)),
        forall|k: Seq<char>| #[trigger] texts(final(v)@).contains(k) <==> (texts(old(v)@).contains(k) || k == s@),
{
    let ghost before = texts(v@);
    let mut p: usize = 0;
    while p < v.len() && compare_text(v[p].as_str(), s.as_str()) == TextOrder::Less
        invariant
            p <= v@.len(),
            before == texts(v@),
            forall|q: int| 0 <= q < p ==> text_less(before[q], s@),
        decreases v@.len() - p,
    {
        p = p + 1;
    }
    proof {
        if p < v@.len() {
            // v[p] is not below s and differs from it, so it is above it.
            assert(before[p as int] != s@);
        }
    }
    if p < v.len() {
        let c = compare_text(v[p].as_str(), s.as_str());
        proof {
            assert(c != TextOrder::Less);
            assert(c != TextOrder::Equal) by {
                assert(before[p as int] == v@[p as int]@);
                assert(before.contains(v@[p as int]@));
            }
            assert(text_less(s@, before[p as int]));
        }
    }
    v.insert(p, s.clone());
    proof {
        let after = texts(v@);
        assert(after =~= before.insert(p as int, s@));
        assert forall|i: int, j: int| 0 <= i < j < after.len() implies text_less(after[i], after[j]) by {
            if j < p {
            } else if i < p && j == p {
            } else if i < p && j > p {
                assert(after[j] == before[j - 1]);
                if p < before.len() {
                    if j - 1 > p {
                        assert(text_less(before[p as int], before[j - 1]));
                        lemma_text_less_transitive(s@, before[p as int], before[j - 1]);
                    }
                    lemma_text_less_transitive(before[i], s@, before[j - 1]);
                }
            } else if i == p {
                assert(after[j] == before[j - 1]);
                if j - 1 > p {
                    assert(text_less(before[p as int], before[j - 1]));
                    lemma_text_less_transitive(s@, before[p as int], before[j - 1]);
                }
            } else {
                assert(after[i] == before[i - 1]);
                assert(after[j] == before[j - 1]);
            }
        }
        assert forall|k: Seq<char>| #[trigger] after.contains(k) <==> (before.contains(k) || k == s@) by {
            if after.contains(k) {
                let q = choose|q: int| 0 <= q < after.len() && after[q] == k;
                if q < p { assert(before[q] == k); } else if q > p { assert(before[q - 1] == k); }
            }
            if before.contains(k) {
                let q = choose|q: int| 0 <= q < before.len() && before[q] == k;
                if q < p { assert(after[q] == k); } else { assert(after[q + 1] == k); }
            }
            if k == s@ {
                assert(after[p as int] == k);
            }
        }
    }
}

/// A compositor call made while a handle's thumbnails are re-created.
#[derive(PartialEq, Eq, Structural, Clone, Copy, Debug)]
pub enum RebuildRequest {
    /// Release a thumbnail.
    Unregister { thumbnail_id: isize },
    /// Register a new thumbnail of `source_hwnd` in `dest_hwnd`.
    Register { dest_hwnd: isize, source_hwnd: isize },
    /// Hand a segment's placement to the compositor.
    Apply { segment: ThumbnailSegment, opacity: u8 },
}

/// The outcome of a `RebuildRequest`.
pub enum RebuildOutcome {
    /// The result of `Unregister` or `Apply`.
    Unit(Result<(), String>),
    /// The result of `Register`.
    Registered(Result<isize, String>),
}

/// What the caller does next while re-creating a handle's thumbnails.
pub enum RebuildStep {
    Perform(RebuildRequest),
    /// The handle's windows are gone: release these thumbnails (ignoring
    /// failures); the handle is dropped.
    Release(Vec<isize>),
    /// The handle is rebuilt.
    Done,
}

/// Where a rebuild stands.
#[derive(PartialEq, Eq, Structural, Clone, Copy, Debug)]
pub enum RebuildPhase {
    Start,
    AwaitUnregister,
    AwaitRegister,
    AwaitApply,
    AwaitSpare,
    Done,
}

/// Re-creating one handle's thumbnails so that they stack above those
/// re-created before (one handle of `sync_stack_order`). Each segment's
/// thumbnail is released and registered anew; a segment whose release fails
/// is kept as it was, one whose registration fails is dropped, and a visible
/// one is placed again. A handle left without segments gets a spare one. The
/// first error met, carried over from earlier handles, is kept.
pub struct SegmentRebuild {
    pub dest_hwnd: isize,
    pub source_hwnd: isize,
    pub source_size: ThumbnailSourceSize,
    pub opacity: u8,
    pub old_segments: Vec<ThumbnailSegment>,
    pub index: usize,
    pub rebuilt: Vec<ThumbnailSegment>,
    pub pending: ThumbnailSegment,
    pub first_error: Option<String>,
    pub alive: bool,
    pub phase: RebuildPhase,
}

/// The content of a rebuild.
pub struct RebuildView {
    pub dest_hwnd: isize,
    pub source_hwnd: isize,
    pub opacity: u8,
    pub old_segments: Seq<ThumbnailSegment>,
    pub index: int,
    pub rebuilt: Seq<ThumbnailSegment>,
    pub pending: ThumbnailSegment,
    pub first_error: Option<Seq<char>>,
    pub alive: bool,
    pub phase: RebuildPhase,
}

/// The content of a rebuild step.
pub enum RebuildStepView {
    Perform(RebuildRequest),
    Release(Seq<isize>),
    Done,
}

impl View for SegmentRebuild {
    type V = RebuildView;

    open spec fn view(&self) -> RebuildView {
        RebuildView {
            dest_hwnd: self.dest_hwnd,
            source_hwnd: self.source_hwnd,
            opacity: self.opacity,
            old_segments: self.old_segments@,
            index: self.index as int,
            rebuilt: self.rebuilt@,
            pending: self.pending,
            first_error: match &self.first_error { Some(e) => Some(e@), None => None },
            alive: self.alive,
            phase: self.phase,
        }
    }
}

impl View for RebuildStep {
    type V = RebuildStepView;

    open spec fn view(&self) -> RebuildStepView {
        match self {
            RebuildStep::Perform(r) => RebuildStepView::Perform(*r),
            RebuildStep::Release(v) => RebuildStepView::Release(v@),
            RebuildStep::Done => RebuildStepView::Done,
        }
    }
}

/// The first error: the one already met, else `e`.
pub open spec fn note_error(first: Option<Seq<char>>, e: Seq<char>) -> Option<Seq<char>> {
    if first is None { Some(e) } else { first }
}

/// The request that continues a rebuild at its current segment.
pub open spec fn rebuild_issue(v: RebuildView) -> (RebuildView, RebuildStepView) {
    if v.index < v.old_segments.len() {
        (RebuildView { phase: RebuildPhase::AwaitUnregister, ..v },
         RebuildStepView::Perform(RebuildRequest::Unregister { thumbnail_id: v.old_segments[v.index].thumbnail_id }))
    } else if v.rebuilt.len() == 0 {
        (RebuildView { phase: RebuildPhase::AwaitSpare, ..v },
         RebuildStepView::Perform(RebuildRequest::Register { dest_hwnd: v.dest_hwnd, source_hwnd: v.source_hwnd }))
    } else {
        (RebuildView { phase: RebuildPhase::Done, ..v }, RebuildStepView::Done)
    }
}

/// Whether an outcome answers what a rebuild phase waits for.
pub open spec fn rebuild_answers(phase: RebuildPhase, o: RebuildOutcome) -> bool {
    match phase {
        RebuildPhase::AwaitUnregister | RebuildPhase::AwaitApply => o is Unit,
        RebuildPhase::AwaitRegister | RebuildPhase::AwaitSpare => o is Registered,
        _ => true,
    }
}

/// The next state and step of a rebuild, given the outcome of its last request.
pub open spec fn rebuild_next(v: RebuildView, o: RebuildOutcome) -> (RebuildView, RebuildStepView) {
    match v.phase {
        RebuildPhase::Start => if !v.alive {
            (RebuildView { phase: RebuildPhase::Done, ..v }, RebuildStepView::Release(segment_ids(v.old_segments)))
        } else {
            rebuild_issue(v)
        },
        RebuildPhase::AwaitUnregister => match o {
            RebuildOutcome::Unit(Err(e)) => rebuild_issue(RebuildView {
                first_error: note_error(v.first_error, e@),
                rebuilt: v.rebuilt.push(v.old_segments[v.index]),
                index: v.index + 1,
                ..v
            }),
            _ => (RebuildView { phase: RebuildPhase::AwaitRegister, ..v },
                  RebuildStepView::Perform(RebuildRequest::Register { dest_hwnd: v.dest_hwnd, source_hwnd: v.source_hwnd })),
        },
        RebuildPhase::AwaitRegister => match o {
            RebuildOutcome::Registered(Ok(id)) => {
                let seg = ThumbnailSegment { thumbnail_id: id, ..v.old_segments[v.index] };
                if seg.visible {
                    (RebuildView { pending: seg, phase: RebuildPhase::AwaitApply, ..v },
                     RebuildStepView::Perform(RebuildRequest::Apply { segment: seg, opacity: v.opacity }))
                } else {
                    rebuild_issue(RebuildView { rebuilt: v.rebuilt.push(seg), index: v.index + 1, ..v })
                }
            },
            RebuildOutcome::Registered(Err(e)) => rebuild_issue(RebuildView {
                first_error: note_error(v.first_error, e@),
                index: v.index + 1,
                ..v
            }),
            _ => rebuild_issue(RebuildView { index: v.index + 1, ..v }),
        },
        RebuildPhase::AwaitApply => rebuild_issue(RebuildView {
            first_error: match o { RebuildOutcome::Unit(Err(e)) => note_error(v.first_error, e@), _ => v.first_error },
            rebuilt: v.rebuilt.push(v.pending),
            index: v.index + 1,
            ..v
        }),
        _ => match o {
            RebuildOutcome::Registered(Ok(id)) =>
                (RebuildView { rebuilt: v.rebuilt.push(hidden_segment(id)), phase: RebuildPhase::Done, ..v },
                 RebuildStepView::Done),
            RebuildOutcome::Registered(Err(e)) =>
                (RebuildView { first_error: note_error(v.first_error, e@), phase: RebuildPhase::Done, ..v },
                 RebuildStepView::Done),
            _ => (RebuildView { phase: RebuildPhase::Done, ..v }, RebuildStepView::Done),
        },
    }
}

impl SegmentRebuild {
    /// Starts re-creating `handle`'s thumbnails; `windows_alive` tells whether
    /// both its windows still exist, `first_error` is the first error met so far.
    pub fn new(handle: ThumbnailHandle, windows_alive: bool, first_error: Option<String>) -> (r: SegmentRebuild)
        ensures
            r@.phase == RebuildPhase::Start,
            r@.index == 0,
            r@.rebuilt == Seq::<ThumbnailSegment>::empty(),
            r@.old_segments == handle.segments@,
            r@.dest_hwnd == handle.dest_hwnd,
            r@.source_hwnd == handle.source_hwnd,
            r.source_size == handle.source_size,
            r@.opacity == handle.opacity,
            r@.alive == windows_alive,
            r@.first_error == (match first_error { Some(e) => Some(e@), None => None::<Seq<char>> }),
    {
        SegmentRebuild {
            dest_hwnd: handle.dest_hwnd,
            source_hwnd: handle.source_hwnd,
            source_size: handle.source_size,
            opacity: handle.opacity,
            old_segments: handle.segments,
            index: 0,
            rebuilt: Vec::new(),
            pending: ThumbnailSegment {
                thumbnail_id: 0,
                dest_rect: Rect { left: 0, top: 0, right: 0, bottom: 0 },
                source_rect: None,
                visible: false,
            },
            first_error,
            alive: windows_alive,
            phase: RebuildPhase::Start,
        }
    }

    /// The well-formedness of a rebuild: its position lies within the old segments.
    pub open spec fn wf(&self) -> bool {
        &&& self.index <= self.old_segments@.len()
        &&& (self.phase == RebuildPhase::AwaitUnregister || self.phase == RebuildPhase::AwaitRegister
            || self.phase == RebuildPhase::AwaitApply) ==> self.index < self.old_segments@.len()
    }

    fn issue(&mut self) -> (step: RebuildStep)
        requires
            old(self).index <= old(self).old_segments@.len(),
        ensures
            (final(self)@, step@) == rebuild_issue(old(self)@),
            final(self).source_size == old(self).source_size,
            final(self).wf(),
    {
        if self.index < self.old_segments.len() {
            self.phase = RebuildPhase::AwaitUnregister;
            RebuildStep::Perform(RebuildRequest::Unregister { thumbnail_id: self.old_segments[self.index].thumbnail_id })
        } else if self.rebuilt.len() == 0 {
            self.phase = RebuildPhase::AwaitSpare;
            RebuildStep::Perform(RebuildRequest::Register { dest_hwnd: self.dest_hwnd, source_hwnd: self.source_hwnd })
        } else {
            self.phase = RebuildPhase::Done;
            RebuildStep::Done
        }
    }

    fn note(&mut self, e: String)
        ensures
            final(self)@ == (RebuildView { first_error: note_error(old(self)@.first_error, e@), ..old(self)@ }),
            final(self).source_size == old(self).source_size,
    {
        if self.first_error.is_none() {
            self.first_error = Some(e);
        }
    }

    /// Advances the rebuild with the outcome of its last request (the first
    /// call's outcome is not read).
    pub fn step(&mut self, outcome: RebuildOutcome) -> (step: RebuildStep)
        requires
            old(self).wf(),
            old(self).phase != RebuildPhase::Done,
            rebuild_answers(old(self).phase, outcome),
        ensures
            final(self).wf(),
            (final(self)@, step@) == rebuild_next(old(self)@, outcome),
            final(self).source_size == old(self).source_size,
    {
        let ghost start_index = self.index;
        proof {
            if self.phase == RebuildPhase::AwaitUnregister || self.phase == RebuildPhase::AwaitRegister
                || self.phase == RebuildPhase::AwaitApply {
                assert(self.index < self.old_segments@.len());
            }
        }
        match self.phase {
            RebuildPhase::Start => {
                if !self.alive {
                    self.phase = RebuildPhase::Done;
                    RebuildStep::Release(thumbnail_ids(&self.old_segments))
                } else {
                    self.issue()
                }
            },
            RebuildPhase::AwaitUnregister => {
                match outcome {
                    RebuildOutcome::Unit(Err(e)) => {
                        self.note(e);
                        self.rebuilt.push(self.old_segments[self.index]);
                        assert(self.index == start_index);
                        assert(self.index < self.old_segments.len());
                        self.index = self.index + 1;
                        self.issue()
                    },
                    _ => {
                        self.phase = RebuildPhase::AwaitRegister;
                        RebuildStep::Perform(RebuildRequest::Register {
                            dest_hwnd: self.dest_hwnd,
                            source_hwnd: self.source_hwnd,
                        })
                    },
                }
            },
            RebuildPhase::AwaitRegister => {
                match outcome {
                    RebuildOutcome::Registered(Ok(id)) => {
                        let seg = ThumbnailSegment { thumbnail_id: id, ..self.old_segments[self.index] };
                        if seg.visible {
                            self.pending = seg;
                            self.phase = RebuildPhase::AwaitApply;
                            RebuildStep::Perform(RebuildRequest::Apply { segment: seg, opacity: self.opacity })
                        } else {
                            self.rebuilt.push(seg);
                            assert(self.index == start_index);
                            assert(self.index < self.old_segments.len());
                            self.index = self.index + 1;
                            self.issue()
                        }
                    },
                    RebuildOutcome::Registered(Err(e)) => {
                        self.note(e);
                        assert(self.index == start_index);
                        assert(self.index < self.old_segments.len());
                        self.index = self.index + 1;
                        self.issue()
                    },
                    _ => {
                        assert(self.index == start_index);
                        assert(self.index < self.old_segments.len());
                        self.index = self.index + 1;
                        self.issue()
                    },
                }
            },
            RebuildPhase::AwaitApply => {
                if let RebuildOutcome::Unit(Err(e)) = outcome {
                    self.note(e);
                }
                self.rebuilt.push(self.pending);
                assert(self.index == start_index);
                assert(self.index < self.old_segments.len());
                self.index = self.index + 1;
                self.issue()
            },
            _ => {
                match outcome {
                    RebuildOutcome::Registered(Ok(id)) => {
                        self.rebuilt.push(ThumbnailSegment {
                            thumbnail_id: id,
                            dest_rect: Rect { left: 0, top: 0, right: 1, bottom: 1 },
                            source_rect: None,
                            visible: false,
                        });
                    },
                    RebuildOutcome::Registered(Err(e)) => {
                        self.note(e);
                    },
                    _ => {},
                }
                self.phase = RebuildPhase::Done;
                RebuildStep::Done
            },
        }
    }

    /// The rebuilt handle (none when its windows were gone) and the first
    /// error met so far.
    pub fn finish(self) -> (r: (Option<ThumbnailHandle>, Option<String>))
        ensures
            !self.alive ==> r.0 is None,
            self.alive ==> (r.0 matches Some(h) && h@ == (HandleView {
                dest_hwnd: self.dest_hwnd,
                source_hwnd: self.source_hwnd,
                source_size: self.source_size,
                segments: self.rebuilt@,
                opacity: self.opacity,
            })),
            r.1 == self.first_error,
    {
        let handle = if self.alive {
            Some(ThumbnailHandle {
                dest_hwnd: self.dest_hwnd,
                source_hwnd: self.source_hwnd,
                source_size: self.source_size,
                segments: self.rebuilt,
                opacity: self.opacity,
            })
        } else {
            None
        };
        (handle, self.first_error)
    }
}

impl ThumbnailManager {
    /// Drops every handle mirroring `source_hwnd`, whose window closed
    /// (`unregister_by_source_hwnd`). Returns a notice for each dropped panel
    /// and the thumbnails to release.
    pub fn unregister_by_source_hwnd(&mut self, source_hwnd: isize) -> (r: (Vec<SourceClosedPayload>, Vec<isize>))
        requires
            old(self).wf(),
        ensures
            final(self).wf(),
            final(self).next_id == old(self).next_id,
            final(self).source_lifecycle_hook == old(self).source_lifecycle_hook,
            forall|k: Seq<char>| #[trigger] final(self).has(k)
                == (old(self).has(k) && old(self).handle(k).source_hwnd != source_hwnd),
            forall|k: Seq<char>| #[trigger] final(self).has(k) ==> final(self).handle(k) == old(self).handle(k),
            forall|k: Seq<char>| #[trigger] payload_ids(r.0@).contains(k)
                == (old(self).has(k) && old(self).handle(k).source_hwnd == source_hwnd),
            forall|j: int| 0 <= j < r.0@.len() ==> #[trigger] r.0@[j].source_hwnd == source_hwnd,
            forall|id: isize| #[trigger] r.1@.contains(id) <==> exists|k: Seq<char>|
                old(self).has(k) && old(self).handle(k).source_hwnd == source_hwnd
                && #[trigger] segment_ids(old(self).handle(k).segments).contains(id),
            final(self).entries@ == old(self).entries@.filter(keeps_source(source_hwnd)),
            payload_ids(r.0@) == entry_ids(old(self).entries@.filter(mirrors(source_hwnd))),
            r.1@ == released_ids(old(self).entries@.filter(mirrors(source_hwnd))),
    {
        let ghost orig = *self;
        let mut rest: Vec<ThumbnailEntry> = Vec::new();
        std::mem::swap(&mut rest, &mut self.entries);
        let ghost all = rest@;
        let n = rest.len();
        let mut payloads: Vec<SourceClosedPayload> = Vec::new();
        let mut released: Vec<isize> = Vec::new();
        let mut i: usize = 0;
        while i < n
            invariant
                orig.wf(),
                all == orig.entries@,
                n == all.len(),
                i <= n,
                rest@ == all.subrange(i as int, n as int),
                self.entries@ == all.subrange(0, i as int).filter(keeps_source(source_hwnd)),
                payload_ids(payloads@) == entry_ids(all.subrange(0, i as int).filter(mirrors(source_hwnd))),
                released@ == released_ids(all.subrange(0, i as int).filter(mirrors(source_hwnd))),
                self.next_id == orig.next_id,
                self.source_lifecycle_hook == orig.source_lifecycle_hook,
                self.wf(),
                forall|j: int| 0 <= j < self.entries@.len() ==> exists|m: int| 0 <= m < i
                    && #[trigger] self.entries@[j] == all[m],
                forall|k: Seq<char>| #[trigger] self.has(k) <==> exists|m: int| 0 <= m < i
                    && all[m].panel_id@ == k && all[m].handle.source_hwnd != source_hwnd,
                forall|k: Seq<char>| #[trigger] payload_ids(payloads@).contains(k)
                    <==> exists|m: int| 0 <= m < i && all[m].panel_id@ == k && all[m].handle.source_hwnd == source_hwnd,
                forall|j: int| 0 <= j < payloads@.len() ==> #[trigger] payloads@[j].source_hwnd == source_hwnd,
                forall|id: isize| #[trigger] released@.contains(id) <==> exists|m: int, b: int| 0 <= m < i
                    && all[m].handle.source_hwnd == source_hwnd && 0 <= b < all[m].handle.segments@.len()
                    && all[m].handle.segments@[b].thumbnail_id == id,
            decreases n - i,
        {
            let e = rest.remove(0);
            assert(e == all[i as int]);
            assert(rest@ =~= all.subrange(i + 1, n as int));
            let ghost prev_payloads = payload_ids(payloads@);
            let ghost prev_released = released@;
            let ghost prev_self = *self;
            let ghost prev_ids = payloads@;
            proof {
                let pre = all.subrange(0, i as int);
                assert(all.subrange(0, i + 1) =~= pre.push(e));
                pre.lemma_filter_push(e, keeps_source(source_hwnd));
                pre.lemma_filter_push(e, mirrors(source_hwnd));
            }
            if e.handle.source_hwnd == source_hwnd {
                let mut ids = thumbnail_ids(&e.handle.segments);
                let ghost added = ids@;
                released.append(&mut ids);
                payloads.push(SourceClosedPayload { panel_id: e.panel_id, source_hwnd });
                proof {
                    let closed = all.subrange(0, i as int).filter(mirrors(source_hwnd));
                    assert(closed.push(all[i as int]).drop_last() =~= closed);
                    assert(entry_ids(closed.push(all[i as int])) =~= entry_ids(closed).push(all[i as int].panel_id@));
                    assert(payload_ids(payloads@) =~= payload_ids(prev_ids).push(all[i as int].panel_id@));
                    assert(payload_ids(payloads@) =~= prev_payloads.push(all[i as int].panel_id@));
                    assert(released@ =~= prev_released + added);
                    assert forall|id: isize| #[trigger] released@.contains(id) <==> exists|m: int, b: int| 0 <= m < i + 1
                        && all[m].handle.source_hwnd == source_hwnd && 0 <= b < all[m].handle.segments@.len()
                        && all[m].handle.segments@[b].thumbnail_id == id by {
                        if released@.contains(id) {
                            let p = choose|p: int| 0 <= p < released@.len() && released@[p] == id;
                            if p < prev_released.len() {
                                assert(prev_released.contains(id));
                            } else {
                                let b = p - prev_released.len();
                                assert(added[b] == all[i as int].handle.segments@[b].thumbnail_id);
                            }
                        }
                        if exists|m: int, b: int| 0 <= m < i + 1
                            && all[m].handle.source_hwnd == source_hwnd && 0 <= b < all[m].handle.segments@.len()
                            && all[m].handle.segments@[b].thumbnail_id == id {
                            let (m, b) = choose|m: int, b: int| 0 <= m < i + 1
                                && all[m].handle.source_hwnd == source_hwnd && 0 <= b < all[m].handle.segments@.len()
                                && all[m].handle.segments@[b].thumbnail_id == id;
                            if m == i {
                                assert(released@[prev_released.len() + b] == id);
                            } else {
                                assert(prev_released.contains(id));
                                let p = choose|p: int| 0 <= p < prev_released.len() && prev_released[p] == id;
                                assert(released@[p] == id);
                            }
                        }
                    }
                    assert forall|k: Seq<char>| #[trigger] payload_ids(payloads@).contains(k)
                        <==> exists|m: int| 0 <= m < i + 1 && all[m].panel_id@ == k && all[m].handle.source_hwnd == source_hwnd by {
                        let now = payload_ids(payloads@);
                        if now.contains(k) {
                            let p = choose|p: int| 0 <= p < now.len() && now[p] == k;
                            if p < prev_payloads.len() {
                                assert(prev_payloads[p] == k);
                                assert(prev_payloads.contains(k));
                            }
                        }
                        if exists|m: int| 0 <= m < i + 1 && all[m].panel_id@ == k && all[m].handle.source_hwnd == source_hwnd {
                            let m = choose|m: int| 0 <= m < i + 1 && all[m].panel_id@ == k && all[m].handle.source_hwnd == source_hwnd;
                            if m == i {
                                assert(now[prev_payloads.len() as int] == k);
                            } else {
                                assert(prev_payloads.contains(k));
                                let p = choose|p: int| 0 <= p < prev_payloads.len() && prev_payloads[p] == k;
                                assert(now[p] == k);
                            }
                        }
                    }
                    assert forall|k: Seq<char>| #[trigger] self.has(k) <==> exists|m: int| 0 <= m < i + 1
                        && all[m].panel_id@ == k && all[m].handle.source_hwnd != source_hwnd by {
                        if exists|m: int| 0 <= m < i + 1 && all[m].panel_id@ == k && all[m].handle.source_hwnd != source_hwnd {
                            let m = choose|m: int| 0 <= m < i + 1 && all[m].panel_id@ == k && all[m].handle.source_hwnd != source_hwnd;
                            assert(m != i);
                        }
                    }
                }
            } else {
                let ghost key = e.panel_id@;
                proof {
                    assert forall|j: int| 0 <= j < self.entries@.len() implies self.entries@[j].panel_id@ != key by {
                        let m = choose|m: int| 0 <= m < i && #[trigger] self.entries@[j] == all[m];
                        assert(all[m].panel_id@ != all[i as int].panel_id@);
                    }
                }
                self.entries.push(e);
                proof {
                    let len0 = prev_self.entries@.len();
                    assert forall|a: int, b: int| 0 <= a < b < self.entries@.len()
                        implies self.entries@[a].panel_id@ != self.entries@[b].panel_id@ by {
                        if b == len0 {
                            assert(prev_self.entries@[a].panel_id@ != key);
                        } else {
                            assert(prev_self.entries@[a] == self.entries@[a]);
                            assert(prev_self.entries@[b] == self.entries@[b]);
                        }
                    }
                    assert forall|j: int| 0 <= j < self.entries@.len() implies exists|m: int| 0 <= m < i + 1
                        && #[trigger] self.entries@[j] == all[m] by {
                        if j == len0 {
                            assert(self.entries@[j] == all[i as int]);
                        } else {
                            assert(self.entries@[j] == prev_self.entries@[j]);
                            let m = choose|m: int| 0 <= m < i && #[trigger] prev_self.entries@[j] == all[m];
                            assert(self.entries@[j] == all[m]);
                        }
                    }
                    assert forall|k: Seq<char>| #[trigger] self.has(k) <==> exists|m: int| 0 <= m < i + 1
                        && all[m].panel_id@ == k && all[m].handle.source_hwnd != source_hwnd by {
                        if self.has(k) {
                            let j = choose|j: int| 0 <= j < self.entries@.len() && self.entries@[j].panel_id@ == k;
                            if j < len0 {
                                assert(prev_self.entries@[j].panel_id@ == k);
                                assert(prev_self.has(k));
                            } else {
                                assert(all[i as int].panel_id@ == k);
                            }
                        }
                        if exists|m: int| 0 <= m < i + 1 && all[m].panel_id@ == k && all[m].handle.source_hwnd != source_hwnd {
                            let m = choose|m: int| 0 <= m < i + 1 && all[m].panel_id@ == k && all[m].handle.source_hwnd != source_hwnd;
                            if m == i {
                                assert(self.entries@[len0 as int].panel_id@ == k);
                            } else {
                                assert(prev_self.has(k));
                                let j = choose|j: int| 0 <= j < prev_self.entries@.len() && prev_self.entries@[j].panel_id@ == k;
                                assert(self.entries@[j].panel_id@ == k);
                            }
                        }
                    }
                    assert forall|k: Seq<char>| #[trigger] payload_ids(payloads@).contains(k)
                        <==> exists|m: int| 0 <= m < i + 1 && all[m].panel_id@ == k && all[m].handle.source_hwnd == source_hwnd by {
                        if exists|m: int| 0 <= m < i + 1 && all[m].panel_id@ == k && all[m].handle.source_hwnd == source_hwnd {
                            let m = choose|m: int| 0 <= m < i + 1 && all[m].panel_id@ == k && all[m].handle.source_hwnd == source_hwnd;
                            assert(m != i);
                        }
                    }
                    assert forall|id: isize| #[trigger] released@.contains(id) <==> exists|m: int, b: int| 0 <= m < i + 1
                        && all[m].handle.source_hwnd == source_hwnd && 0 <= b < all[m].handle.segments@.len()
                        && all[m].handle.segments@[b].thumbnail_id == id by {
                        if exists|m: int, b: int| 0 <= m < i + 1
                            && all[m].handle.source_hwnd == source_hwnd && 0 <= b < all[m].handle.segments@.len()
                            && all[m].handle.segments@[b].thumbnail_id == id {
                            let (m, b) = choose|m: int, b: int| 0 <= m < i + 1
                                && all[m].handle.source_hwnd == source_hwnd && 0 <= b < all[m].handle.segments@.len()
                                && all[m].handle.segments@[b].thumbnail_id == id;
                            assert(m != i);
                        }
                    }
                }
            }
            i = i + 1;
        }
        proof {
            assert(all.subrange(0, n as int) =~= all);
            assert forall|k: Seq<char>| #[trigger] self.has(k)
                == (orig.has(k) && orig.handle(k).source_hwnd != source_hwnd) by {
                if self.has(k) {
                    let m = choose|m: int| 0 <= m < n && all[m].panel_id@ == k && all[m].handle.source_hwnd != source_hwnd;
                    orig.lemma_slot(m);
                }
                if orig.has(k) && orig.handle(k).source_hwnd != source_hwnd {
                    let m = orig.slot(k);
                    orig.lemma_slot(m);
                }
            }
            assert forall|k: Seq<char>| #[trigger] self.has(k) implies self.handle(k) == orig.handle(k) by {
                let j = self.slot(k);
                let m = choose|m: int| 0 <= m < i && #[trigger] self.entries@[j] == all[m];
                orig.lemma_slot(m);
            }
            let pv = payload_ids(payloads@);
            assert forall|k: Seq<char>| #[trigger] pv.contains(k)
                == (orig.has(k) && orig.handle(k).source_hwnd == source_hwnd) by {
                if pv.contains(k) {
                    let m = choose|m: int| 0 <= m < n && all[m].panel_id@ == k && all[m].handle.source_hwnd == source_hwnd;
                    orig.lemma_slot(m);
                }
                if orig.has(k) && orig.handle(k).source_hwnd == source_hwnd {
                    let m = orig.slot(k);
                    orig.lemma_slot(m);
                }
            }
            assert forall|id: isize| #[trigger] released@.contains(id) <==> exists|k: Seq<char>|
                orig.has(k) && orig.handle(k).source_hwnd == source_hwnd
                && #[trigger] segment_ids(orig.handle(k).segments).contains(id) by {
                if released@.contains(id) {
                    let (m, b) = choose|m: int, b: int| 0 <= m < n
                        && all[m].handle.source_hwnd == source_hwnd && 0 <= b < all[m].handle.segments@.len()
                        && all[m].handle.segments@[b].thumbnail_id == id;
                    orig.lemma_slot(m);
                    let k = all[m].panel_id@;
                    assert(segment_ids(orig.handle(k).segments)[b] == id);
                    assert(segment_ids(orig.handle(k).segments).contains(id));
                }
                if exists|k: Seq<char>| orig.has(k) && orig.handle(k).source_hwnd == source_hwnd
                    && #[trigger] segment_ids(orig.handle(k).segments).contains(id) {
                    let k = choose|k: Seq<char>| orig.has(k) && orig.handle(k).source_hwnd == source_hwnd
                        && #[trigger] segment_ids(orig.handle(k).segments).contains(id);
                    let m = orig.slot(k);
                    orig.lemma_slot(m);
                    let sids = segment_ids(orig.handle(k).segments);
                    let b = choose|b: int| 0 <= b < sids.len() && sids[b] == id;
                    assert(all[m].handle.segments@[b].thumbnail_id == id);
                }
            }
        }
        (payloads, released)
    }
}

impl ThumbnailManager {
    /// Whether the window-destruction hook still has to be installed; once it
    /// is, installing it again is skipped.
    pub fn needs_lifecycle_hook(&self) -> (r: bool)
        ensures
            r == (self.source_lifecycle_hook is None),
    {
        self.source_lifecycle_hook.is_none()
    }

    /// Records the hook the system returned; a null hook means it could not
    /// be installed.
    pub fn record_lifecycle_hook(&mut self, hook: isize) -> (r: Result<(), String>)
        ensures
            hook == 0 ==> *final(self) == *old(self)
                && (r matches Err(e) && e@ == "Failed to install source window lifecycle hook"@),
            hook != 0 ==> r is Ok && final(self).source_lifecycle_hook == Some(hook)
                && final(self).entries == old(self).entries && final(self).next_id == old(self).next_id,
    {
        if hook == 0 {
            Err("Failed to install source window lifecycle hook".to_owned())
        } else {
            self.source_lifecycle_hook = Some(hook);
            Ok(())
        }
    }

    /// Takes the installed hook out, to be removed from the system.
    pub fn take_lifecycle_hook(&mut self) -> (r: Option<isize>)
        ensures
            r == old(self).source_lifecycle_hook,
            final(self).source_lifecycle_hook is None,
            final(self).entries == old(self).entries,
            final(self).next_id == old(self).next_id,
    {
        let hook = self.source_lifecycle_hook;
        self.source_lifecycle_hook = None;
        hook
    }
}

proof fn same_ids_same_membership(a: &ThumbnailManager, b: &ThumbnailManager)
    requires
        a.ids() == b.ids(),
    ensures
        forall|k: Seq<char>| #[trigger] b.has(k) == a.has(k),
{
    assert(a.ids().len() == a.entries@.len());
    assert(b.ids().len() == b.entries@.len());
    assert forall|k: Seq<char>| #[trigger] b.has(k) == a.has(k) by {
        if a.has(k) {
            let j = choose|j: int| 0 <= j < a.entries@.len() && a.entries@[j].panel_id@ == k;
            assert(a.ids()[j] == k);
            assert(b.ids()[j] == b.entries@[j].panel_id@);
            assert(b.entries@[j].panel_id@ == k);
        }
        if b.has(k) {
            let j = choose|j: int| 0 <= j < b.entries@.len() && b.entries@[j].panel_id@ == k;
            assert(b.ids()[j] == k);
            assert(a.ids()[j] == a.entries@[j].panel_id@);
            assert(a.entries@[j].panel_id@ == k);
        }
    }
}

/// The thumbnail ids of `segments`, in order.
pub fn thumbnail_ids(segments: &Vec<ThumbnailSegment>) -> (r: Vec<isize>)
    ensures
        r@ == segment_ids(segments@),
{
    let r = thumbnail_ids_from(segments, 0);
    assert(segments@.subrange(0, segments@.len() as int) =~= segments@);
    r
}

/// The thumbnail ids of `segments[from..]`, in order.
pub fn thumbnail_ids_from(segments: &Vec<ThumbnailSegment>, from: usize) -> (r: Vec<isize>)
    requires
        from <= segments@.len(),
    ensures
        r@ == segment_ids(segments@.subrange(from as int, segments@.len() as int)),
{
    let mut out: Vec<isize> = Vec::new();
    let mut i = from;
    while i < segments.len()
        invariant
            from <= i <= segments@.len(),
            out@ == segment_ids(segments@.subrange(from as int, i as int)),
        decreases segments@.len() - i,
    {
        out.push(segments[i].thumbnail_id);
        assert(segment_ids(segments@.subrange(from as int, i + 1)) =~= segment_ids(segments@.subrange(from as int, i as int)).push(segments@[i as int].thumbnail_id));
        i = i + 1;
    }
    out
}

} // verus!
