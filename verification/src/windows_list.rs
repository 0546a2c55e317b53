//! Which desktop windows the workbench offers for capture, why some cannot be
//! captured, and the order they are listed in.

use vstd::prelude::*;

use crate::text::{
    str_eq, contains, has_infix, trim, trimmed, to_lowercase, lowercase, compare_text, text_less, TextOrder,
};

verus! {

/// A window's outer rectangle in screen coordinates.
#[derive(PartialEq, Eq, Structural, Clone, Copy, Debug)]
pub struct WindowRect {
    pub left: i32,
    pub top: i32,
    pub right: i32,
    pub bottom: i32,
}

/// A window offered for capture.
pub struct WindowInfo {
    pub hwnd: isize,
    pub title: String,
    pub exe_path: String,
    pub class_name: String,
    pub is_compatible: bool,
    pub incompatibility_reason: Option<String>,
    pub pid: u32,
    pub rect: WindowRect,
}

/// What the system reports of a top-level window.
pub struct RawWindow {
    pub hwnd: isize,
    pub visible: bool,
    pub cloaked: bool,
    /// The window style bits.
    pub style: i64,
    /// The extended window style bits.
    pub ex_style: i64,
    /// The title as read, before trimming.
    pub title: String,
    pub class_name: String,
    pub pid: u32,
    /// The executable of the owning process, empty when unknown.
    pub exe_path: String,
    /// The outer rectangle, all zero when it could not be read.
    pub rect: WindowRect,
    /// Whether the outer rectangle could be read.
    pub rect_known: bool,
    /// Whether the owning process runs elevated.
    pub elevated: bool,
    pub screen_width: i32,
    pub screen_height: i32,
}

/// `WS_POPUP`.
pub open spec fn popup_bit() -> i64 { 0x8000_0000 }
/// `WS_CHILD`.
pub open spec fn child_bit() -> i64 { 0x4000_0000 }
/// `WS_CAPTION`.
pub open spec fn caption_bits() -> i64 { 0x00C0_0000 }
/// `WS_EX_TOOLWINDOW`.
pub open spec fn tool_window_bit() -> i64 { 0x80 }
/// `WS_EX_TOPMOST`.
pub open spec fn topmost_bit() -> i64 { 0x8 }

/// Whether a window looks like a full-screen game: topmost, without caption,
/// and at least as large as the screen.
pub open spec fn looks_fullscreen(w: RawWindow) -> bool {
    &&& w.ex_style & topmost_bit() != 0
    &&& w.style & caption_bits() == 0
    &&& w.rect_known
    &&& w.rect.right - w.rect.left >= w.screen_width
    &&& w.rect.bottom - w.rect.top >= w.screen_height
}

/// Why a window cannot be captured, if it cannot: UWP frames, shell windows,
/// the application's own windows, child windows, elevated processes and
/// full-screen games, checked in that order. `exe_lower` is the lower-cased
/// path of the window's executable.
pub open spec fn incompatibility(
    exe_lower: Seq<char>,
    class_name: Seq<char>,
    is_child: bool,
    elevated: bool,
    fullscreen: bool,
) -> Option<Seq<char>> {
    if has_infix(exe_lower, "applicationframehost"@) {
        Some("UWP apps cannot be captured"@)
    } else if class_name == "Progman"@ || class_name == "WorkerW"@ || class_name == "Shell_TrayWnd"@
        || class_name == "Button"@ {
        Some("System shell window"@)
    } else if has_infix(class_name, "BetterPanely"@) {
        Some("BetterPanely window"@)
    } else if is_child {
        Some("Already a child window"@)
    } else if elevated {
        Some("Administrator process (UIPI blocked)"@)
    } else if fullscreen {
        Some("Fullscreen / DirectX application"@)
    } else {
        None
    }
}

/// Whether a window can be captured and, if not, why, given the lower-cased
/// path of its executable.
pub fn compatibility(exe_lower: &str, class_name: &str, is_child: bool, elevated: bool, fullscreen: bool)
    -> (r: (bool, Option<String>))
    ensures
        r.0 == (incompatibility(exe_lower@, class_name@, is_child, elevated, fullscreen) is None),
        match incompatibility(exe_lower@, class_name@, is_child, elevated, fullscreen) {
            Some(m) => r.1 matches Some(s) && s@ == m,
            None => r.1 is None,
        },
{
    if contains(exe_lower, "applicationframehost") {
        return (false, Some("UWP apps cannot be captured".to_owned()));
    }
    if str_eq(class_name, "Progman") || str_eq(class_name, "WorkerW") || str_eq(class_name, "Shell_TrayWnd")
        || str_eq(class_name, "Button") {
        return (false, Some("System shell window".to_owned()));
    }
    if contains(class_name, "BetterPanely") {
        return (false, Some("BetterPanely window".to_owned()));
    }
    if is_child {
        return (false, Some("Already a child window".to_owned()));
    }
    if elevated {
        return (false, Some("Administrator process (UIPI blocked)".to_owned()));
    }
    if fullscreen {
        return (false, Some("Fullscreen / DirectX application".to_owned()));
    }
    (true, None)
}

/// Whether a window can be captured and, if not, why.
pub fn check_compatibility(exe_path: &str, class_name: &str, is_child: bool, elevated: bool, fullscreen: bool)
    -> (r: (bool, Option<String>))
    ensures
        r.0 == (incompatibility(lowercase(exe_path@), class_name@, is_child, elevated, fullscreen) is None),
        match incompatibility(lowercase(exe_path@), class_name@, is_child, elevated, fullscreen) {
            Some(m) => r.1 matches Some(s) && s@ == m,
            None => r.1 is None,
        },
{
    let exe_lower = to_lowercase(exe_path);
    compatibility(exe_lower.as_str(), class_name, is_child, elevated, fullscreen)
}

/// The entry a window gets in the capture list, if it is listed: visible,
/// not cloaked, not a plain tool window, titled, with an outer rectangle that
/// has an area, and not one of the application's own windows. `exe_lower` is
/// the lower-cased path of the window's executable.
pub open spec fn listing(w: RawWindow, exe_lower: Seq<char>) -> Option<WindowInfoView> {
    let title = trimmed(w.title@);
    let is_popup = w.style & popup_bit() != 0;
    let is_tool = w.ex_style & tool_window_bit() != 0;
    let reason = incompatibility(exe_lower, w.class_name@, w.style & child_bit() != 0, w.elevated, looks_fullscreen(w));
    if !w.visible || w.cloaked || (is_tool && !is_popup) || title.len() == 0
        || w.rect.right <= w.rect.left || w.rect.bottom <= w.rect.top
        || has_infix(w.class_name@, "BetterPanely"@) || has_infix(exe_lower, "better-panely"@) {
        None
    } else {
        Some(WindowInfoView {
            hwnd: w.hwnd,
            title,
            exe_path: w.exe_path@,
            class_name: w.class_name@,
            is_compatible: reason is None,
            incompatibility_reason: reason,
            pid: w.pid,
            rect: w.rect,
        })
    }
}

/// The content of a `WindowInfo`.
pub struct WindowInfoView {
    pub hwnd: isize,
    pub title: Seq<char>,
    pub exe_path: Seq<char>,
    pub class_name: Seq<char>,
    pub is_compatible: bool,
    pub incompatibility_reason: Option<Seq<char>>,
    pub pid: u32,
    pub rect: WindowRect,
}

impl View for WindowInfo {
    type V = WindowInfoView;

    open spec fn view(&self) -> WindowInfoView {
        WindowInfoView {
            hwnd: self.hwnd,
            title: self.title@,
            exe_path: self.exe_path@,
            class_name: self.class_name@,
            is_compatible: self.is_compatible,
            incompatibility_reason: match &self.incompatibility_reason { Some(s) => Some(s@), None => None },
            pid: self.pid,
            rect: self.rect,
        }
    }
}

/// The capture-list entry of a window, if it is listed, given the lower-cased
/// path of its executable.
pub fn list_window_with(w: &RawWindow, exe_lower: &str) -> (r: Option<WindowInfo>)
    ensures
        match listing(*w, exe_lower@) {
            Some(v) => r matches Some(x) && x@ == v,
            None => r is None,
        },
{
    if !w.visible || w.cloaked {
        return None;
    }
    let is_popup = w.style & 0x8000_0000 != 0;
    let is_tool = w.ex_style & 0x80 != 0;
    if is_tool && !is_popup {
        return None;
    }
    let title = trim(w.title.as_str());
    if title.as_str().is_empty() {
        return None;
    }
    if w.rect.right <= w.rect.left || w.rect.bottom <= w.rect.top {
        return None;
    }
    let fullscreen = w.ex_style & 0x8 != 0 && w.style & 0x00C0_0000 == 0 && w.rect_known
        && (w.rect.right as i64) - (w.rect.left as i64) >= w.screen_width as i64
        && (w.rect.bottom as i64) - (w.rect.top as i64) >= w.screen_height as i64;
    let is_child = w.style & 0x4000_0000 != 0;
    let (is_compatible, reason) = compatibility(exe_lower, w.class_name.as_str(), is_child, w.elevated, fullscreen);
    if contains(w.class_name.as_str(), "BetterPanely") || contains(exe_lower, "better-panely") {
        return None;
    }
    Some(WindowInfo {
        hwnd: w.hwnd,
        title,
        exe_path: w.exe_path.clone(),
        class_name: w.class_name.clone(),
        is_compatible,
        incompatibility_reason: reason,
        pid: w.pid,
        rect: w.rect,
    })
}

/// The capture-list entry of a window, if it is listed.
pub fn list_window(w: &RawWindow) -> (r: Option<WindowInfo>)
    ensures
        match listing(*w, lowercase(w.exe_path@)) {
            Some(v) => r matches Some(x) && x@ == v,
            None => r is None,
        },
{
    let exe_lower = to_lowercase(w.exe_path.as_str());
    list_window_with(w, exe_lower.as_str())
}

/// Whether key `a` is listed before key `b`: compatible windows first, then
/// by lower-cased title in code-point order.
pub open spec fn key_before(a: (bool, Seq<char>), b: (bool, Seq<char>)) -> bool {
    (a.0 && !b.0) || (a.0 == b.0 && text_less(a.1, b.1))
}

/// The key a window is listed by: compatibility, then lower-cased title.
pub open spec fn window_key(w: WindowInfo) -> (bool, Seq<char>) {
    (w.is_compatible, lowercase(w.title@))
}

/// The windows of `s` with key `c`, in order.
pub open spec fn key_class(s: Seq<WindowInfo>, c: (bool, Seq<char>)) -> Seq<WindowInfo> {
    s.filter(has_key(c))
}

/// Whether a window has key `c`.
pub open spec fn has_key(c: (bool, Seq<char>)) -> spec_fn(WindowInfo) -> bool {
    |w: WindowInfo| window_key(w) == c
}

/// Whether `s` is in listing order.
pub open spec fn listed_in_order(s: Seq<WindowInfo>) -> bool {
    forall|i: int, j: int| 0 <= i < j < s.len() ==> !key_before(window_key(s[j]), window_key(s[i]))
}

/// The key an entry of the capture list is sorted by: its window's
/// compatibility, then the text it carries (the window's lower-cased title).
pub open spec fn entry_key(e: (String, WindowInfo)) -> (bool, Seq<char>) {
    (e.1.is_compatible, e.0@)
}

/// The entries of `s` with key `c`, in order.
pub open spec fn entry_class(s: Seq<(String, WindowInfo)>, c: (bool, Seq<char>)) -> Seq<(String, WindowInfo)> {
    s.filter(has_entry_key(c))
}

/// Whether an entry has key `c`.
pub open spec fn has_entry_key(c: (bool, Seq<char>)) -> spec_fn((String, WindowInfo)) -> bool {
    |e: (String, WindowInfo)| entry_key(e) == c
}

/// Whether entries are in listing order.
pub open spec fn entries_in_order(s: Seq<(String, WindowInfo)>) -> bool {
    forall|i: int, j: int| 0 <= i < j < s.len() ==> !key_before(entry_key(s[j]), entry_key(s[i]))
}

/// Whether entry `a` is listed before entry `b`.
fn listed_before(a: &(String, WindowInfo), b: &(String, WindowInfo)) -> (r: bool)
    ensures
        r == key_before(entry_key(*a), entry_key(*b)),
{
    if a.1.is_compatible && !b.1.is_compatible {
        return true;
    }
    if a.1.is_compatible != b.1.is_compatible {
        return false;
    }
    compare_text(a.0.as_str(), b.0.as_str()) == TextOrder::Less
}

proof fn lemma_key_before_asymmetric(a: (bool, Seq<char>), b: (bool, Seq<char>))
    requires
        key_before(a, b),
    ensures
        !key_before(b, a),
{
    if a.0 == b.0 {
        crate::text::lemma_text_less_asymmetric(a.1, b.1);
    }
}

/// If `a` precedes `b` and `b` precedes `c`, then `a` precedes `c`.
proof fn lemma_key_before_transitive(a: (bool, Seq<char>), b: (bool, Seq<char>), c: (bool, Seq<char>))
    requires
        key_before(a, b),
        key_before(b, c),
    ensures
        key_before(a, c),
{
    if a.0 == b.0 && b.0 == c.0 {
        crate::text::lemma_text_less_transitive(a.1, b.1, c.1);
    }
}

/// Sorts capture-list entries, each a window with the text it is sorted by:
/// compatible windows first, then by that text; entries with equal keys keep
/// their order.
pub fn sort_listing(entries: Vec<(String, WindowInfo)>) -> (r: Vec<(String, WindowInfo)>)
    ensures
        entries_in_order(r@),
        forall|c: (bool, Seq<char>)| #[trigger] entry_class(r@, c) == entry_class(entries@, c),
{
    let ghost orig = entries@;
    let mut input = entries;
    let mut sorted: Vec<(String, WindowInfo)> = Vec::new();
    let ghost mut done: int = 0;
    while input.len() > 0
        invariant
            0 <= done <= orig.len(),
            input@ == orig.subrange(done, orig.len() as int),
            entries_in_order(sorted@),
            forall|c: (bool, Seq<char>)| #[trigger] entry_class(sorted@, c) == entry_class(orig.subrange(0, done), c),
        decreases input@.len(),
    {
        let x = input.remove(0);
        assert(x == orig[done]);
        let mut p: usize = 0;
        while p < sorted.len() && !listed_before(&x, &sorted[p])
            invariant
                p <= sorted@.len(),
                forall|q: int| 0 <= q < p ==> !key_before(entry_key(x), entry_key(#[trigger] sorted@[q])),
            decreases sorted@.len() - p,
        {
            p = p + 1;
        }
        let ghost before = sorted@;
        proof {
            if p < before.len() {
                assert(key_before(entry_key(x), entry_key(before[p as int])));
            }
            // Nothing from position p on shares x's key.
            assert forall|q: int| p <= q < before.len() implies entry_key(#[trigger] before[q]) != entry_key(x) by {
                if entry_key(before[q]) == entry_key(x) {
                    assert(key_before(entry_key(x), entry_key(before[p as int])));
                    if q > p {
                        assert(!key_before(entry_key(before[q]), entry_key(before[p as int])));
                    } else {
                        lemma_key_before_asymmetric(entry_key(x), entry_key(before[p as int]));
                    }
                }
            }
        }
        sorted.insert(p, x);
        proof {
            let after = sorted@;
            let head = before.subrange(0, p as int);
            let tail = before.subrange(p as int, before.len() as int);
            assert(before =~= head + tail);
            assert(after =~= head + seq![x] + tail);
            assert forall|i: int, j: int| 0 <= i < j < after.len()
                implies !key_before(entry_key(after[j]), entry_key(after[i])) by {
                if j < p {
                } else if j == p {
                    assert(after[i] == before[i]);
                } else if i == p {
                    assert(after[j] == before[j - 1]);
                    if key_before(entry_key(before[j - 1]), entry_key(x)) {
                        // x was placed before before[p], which does not follow before[j - 1].
                        assert(key_before(entry_key(x), entry_key(before[p as int])));
                        lemma_key_before_transitive(entry_key(before[j - 1]), entry_key(x), entry_key(before[p as int]));
                        if j - 1 > p {
                            assert(!key_before(entry_key(before[j - 1]), entry_key(before[p as int])));
                        } else {
                            lemma_key_before_asymmetric(entry_key(x), entry_key(before[p as int]));
                        }
                    }
                } else if i < p {
                    assert(after[i] == before[i]);
                    assert(after[j] == before[j - 1]);
                } else {
                    assert(after[i] == before[i - 1]);
                    assert(after[j] == before[j - 1]);
                }
            }
            let xs = seq![x];
            assert(orig.subrange(0, done + 1) =~= orig.subrange(0, done).push(x));
            assert forall|c: (bool, Seq<char>)| #[trigger] entry_class(after, c) == entry_class(orig.subrange(0, done + 1), c) by {
                let pred = has_entry_key(c);
                assert(entry_class(before, c) == entry_class(orig.subrange(0, done), c));
                Seq::filter_distributes_over_add(head + xs, tail, pred);
                Seq::filter_distributes_over_add(head, xs, pred);
                Seq::filter_distributes_over_add(head, tail, pred);
                orig.subrange(0, done).lemma_filter_push(x, pred);
                assert(after.filter(pred) == head.filter(pred) + xs.filter(pred) + tail.filter(pred));
                assert(before.filter(pred) == head.filter(pred) + tail.filter(pred));
                reveal_with_fuel(Seq::filter, 2);
                if entry_key(x) == c {
                    assert(pred(x));
                    assert forall|q: int| 0 <= q < tail.len() implies !pred(#[trigger] tail[q]) by {
                        assert(tail[q] == before[p + q]);
                    }
                    assert(tail.all(|w: (String, WindowInfo)| !pred(w)));
                    tail.lemma_all_neg_filter_empty(pred);
                    assert(tail.filter(pred) =~= Seq::<(String, WindowInfo)>::empty());
                    assert(xs.drop_last() =~= Seq::<(String, WindowInfo)>::empty());
                    assert(xs.filter(pred) =~= xs);
                    assert(after.filter(pred) =~= head.filter(pred).push(x));
                    assert(before.filter(pred) =~= head.filter(pred));
                } else {
                    assert(!pred(x));
                    assert(xs.drop_last() =~= Seq::<(String, WindowInfo)>::empty());
                    assert(xs.filter(pred) =~= Seq::<(String, WindowInfo)>::empty());
                    assert(after.filter(pred) =~= before.filter(pred));
                }
            }
            done = done + 1;
        }
    }
    assert(orig.subrange(0, done) =~= orig);
    sorted
}

/// The windows of a list of entries.
pub open spec fn entry_windows(s: Seq<(String, WindowInfo)>) -> Seq<WindowInfo> {
    s.map_values(|e: (String, WindowInfo)| e.1)
}

/// Whether every entry carries its window's lower-cased title.
pub open spec fn keyed_by_title(s: Seq<(String, WindowInfo)>) -> bool {
    forall|i: int| 0 <= i < s.len() ==> (#[trigger] s[i]).0@ == lowercase(s[i].1.title@)
}

proof fn lemma_entry_windows_filter(s: Seq<(String, WindowInfo)>, c: (bool, Seq<char>))
    requires
        keyed_by_title(s),
    ensures
        entry_windows(s.filter(has_entry_key(c))) == entry_windows(s).filter(has_key(c)),
    decreases s.len(),
{
    reveal(Seq::filter);
    if s.len() > 0 {
        let rest = s.drop_last();
        assert(keyed_by_title(rest)) by {
            assert forall|i: int| 0 <= i < rest.len() implies (#[trigger] rest[i]).0@ == lowercase(rest[i].1.title@) by {
                assert(rest[i] == s[i]);
            }
        }
        lemma_entry_windows_filter(rest, c);
        assert(entry_windows(s).drop_last() =~= entry_windows(rest));
        assert(s[s.len() - 1].0@ == lowercase(s[s.len() - 1].1.title@));
        let sub = rest.filter(has_entry_key(c));
        if has_entry_key(c)(s.last()) {
            assert(entry_windows(sub.push(s.last())) =~= entry_windows(sub).push(s.last().1));
        }
    } else {
        assert(entry_windows(s.filter(has_entry_key(c))) =~= entry_windows(s).filter(has_key(c)));
    }
}

/// Sorts windows for listing: compatible ones first, then by lower-cased
/// title; windows with equal keys keep their order.
pub fn sort_windows(windows: Vec<WindowInfo>) -> (r: Vec<WindowInfo>)
    ensures
        listed_in_order(r@),
        forall|c: (bool, Seq<char>)| #[trigger] key_class(r@, c) == key_class(windows@, c),
{
    let ghost orig = windows@;
    let mut input = windows;
    let mut entries: Vec<(String, WindowInfo)> = Vec::new();
    let ghost mut done: int = 0;
    while input.len() > 0
        invariant
            0 <= done <= orig.len(),
            input@ == orig.subrange(done, orig.len() as int),
            entry_windows(entries@) == orig.subrange(0, done),
            keyed_by_title(entries@),
        decreases input@.len(),
    {
        let w = input.remove(0);
        assert(w == orig[done]);
        let key = to_lowercase(w.title.as_str());
        let ghost before = entries@;
        entries.push((key, w));
        proof {
            assert(entry_windows(entries@) =~= entry_windows(before).push(orig[done]));
            assert(orig.subrange(0, done + 1) =~= orig.subrange(0, done).push(orig[done]));
            done = done + 1;
        }
    }
    proof {
        assert(orig.subrange(0, done) =~= orig);
    }
    let ghost keyed = entries@;
    let sorted = sort_listing(entries);
    proof {
        assert forall|i: int| 0 <= i < sorted@.len() implies (#[trigger] sorted@[i]).0@ == lowercase(sorted@[i].1.title@) by {
            let x = sorted@[i];
            let c = entry_key(x);
            sorted@.lemma_filter_contains(has_entry_key(c), i);
            assert(entry_class(sorted@, c) == entry_class(keyed, c));
            keyed.lemma_filter_contains_rev(has_entry_key(c), x);
            let k = choose|k: int| 0 <= k < keyed.len() && keyed[k] == x;
            assert(keyed[k].0@ == lowercase(keyed[k].1.title@));
        }
    }
    let ghost keyed_sorted = sorted@;
    let mut out: Vec<WindowInfo> = Vec::new();
    let mut rest = sorted;
    let ghost all = rest@;
    let ghost mut taken: int = 0;
    while rest.len() > 0
        invariant
            0 <= taken <= all.len(),
            rest@ == all.subrange(taken, all.len() as int),
            out@ == entry_windows(all.subrange(0, taken)),
        decreases rest@.len(),
    {
        let e = rest.remove(0);
        assert(e == all[taken]);
        let ghost before = out@;
        out.push(e.1);
        proof {
            assert(all.subrange(0, taken + 1) =~= all.subrange(0, taken).push(all[taken]));
            assert(out@ =~= entry_windows(all.subrange(0, taken + 1)));
            taken = taken + 1;
        }
    }
    proof {
        assert(all.subrange(0, taken) =~= all);
        assert(out@ == entry_windows(all));
        assert(all == keyed_sorted);
        assert(keyed_by_title(all));
        assert forall|i: int, j: int| 0 <= i < j < out@.len()
            implies !key_before(window_key(out@[j]), window_key(out@[i])) by {
            assert(entry_key(all[i]) == window_key(out@[i]));
            assert(entry_key(all[j]) == window_key(out@[j]));
        }
        assert forall|c: (bool, Seq<char>)| #[trigger] key_class(out@, c) == key_class(orig, c) by {
            lemma_entry_windows_filter(all, c);
            lemma_entry_windows_filter(keyed, c);
            assert(entry_class(all, c) == entry_class(keyed, c));
            assert(entry_windows(keyed) == orig);
        }
    }
    out
}

/// The desktop shell's windows (the classes `Progman`, `WorkerW`,
/// `Shell_TrayWnd` and `Button`) are never offered for capture: unless the
/// executable is a UWP frame, they are refused as shell windows.
pub proof fn lemma_shell_windows_are_refused(
    exe_lower: Seq<char>,
    class_name: Seq<char>,
    is_child: bool,
    elevated: bool,
    fullscreen: bool,
)
    requires
        class_name == "Progman"@ || class_name == "WorkerW"@ || class_name == "Shell_TrayWnd"@
            || class_name == "Button"@,
        !has_infix(exe_lower, "applicationframehost"@),
    ensures
        incompatibility(exe_lower, class_name, is_child, elevated, fullscreen) == Some("System shell window"@),
{
}

/// A window is offered for capture only when no refusal applies to it: not a
/// UWP frame, not a shell window, not one of the application's own, not a
/// child, not elevated and not full-screen.
pub proof fn lemma_compatible_windows_pass_every_check(
    exe_lower: Seq<char>,
    class_name: Seq<char>,
    is_child: bool,
    elevated: bool,
    fullscreen: bool,
)
    ensures
        incompatibility(exe_lower, class_name, is_child, elevated, fullscreen) is None <==> {
            &&& !has_infix(exe_lower, "applicationframehost"@)
            &&& class_name != "Progman"@ && class_name != "WorkerW"@ && class_name != "Shell_TrayWnd"@
                && class_name != "Button"@
            &&& !has_infix(class_name, "BetterPanely"@)
            &&& !is_child && !elevated && !fullscreen
        },
{
}

} // verus!
