//! Reading back the saved workbench layout: which saved panels are kept and
//! with which values. Positions and sizes are fractional numbers and are
//! checked by the caller; everything else is decided here.

use vstd::prelude::*;

use crate::text::{str_eq, trim, trimmed, is_space_char, lemma_trimmed_fixed};

verus! {

/// The title of a saved panel without one.
pub open spec fn default_panel_title() -> Seq<char> {
    "Untitled"@
}

/// The stacking index of a saved panel without a usable one.
pub open spec fn default_panel_z_index() -> i32 {
    1
}

/// The fields of one saved panel as read from the layout file: each text
/// field if it is a string, each integer field if it is an integer.
pub struct PanelFields {
    pub id: Option<String>,
    pub panel_type: Option<String>,
    pub title: Option<String>,
    pub source_hwnd: Option<i64>,
    pub tool_id: Option<String>,
    pub z_index: Option<i64>,
    /// Whether the width is a finite number of at least 80.
    pub width_valid: bool,
    /// Whether the height is a finite number of at least 64.
    pub height_valid: bool,
}

/// The kept values of a saved panel, apart from position and size.
pub struct PanelRecord {
    pub id: String,
    pub panel_type: String,
    pub source_hwnd: Option<isize>,
    pub tool_id: Option<String>,
    pub title: String,
    pub z_index: i32,
}

/// The content of an optional string.
pub open spec fn opt_text(s: Option<String>) -> Option<Seq<char>> {
    match s {
        Some(t) => Some(t@),
        None => None,
    }
}

/// A text field's value: trimmed, and absent when blank.
pub open spec fn field_text(raw: Option<Seq<char>>) -> Option<Seq<char>> {
    match raw {
        Some(s) => if trimmed(s).len() > 0 { Some(trimmed(s)) } else { None },
        None => None,
    }
}

/// A text field's value (`string_field`): trimmed, and absent when blank.
pub fn string_field(raw: &Option<String>) -> (r: Option<String>)
    ensures
        opt_text(r) == field_text(opt_text(*raw)),
{
    match raw {
        None => None,
        Some(s) => {
            let t = trim(s.as_str());
            if t.as_str().is_empty() { None } else { Some(t) }
        },
    }
}

/// A window handle field (`positive_isize_field`): kept when it is positive
/// and fits a pointer-sized integer.
pub fn positive_isize_field(raw: Option<i64>) -> (r: Option<isize>)
    ensures
        r == (match raw {
            Some(n) => if 0 < n && n <= isize::MAX { Some(n as isize) } else { None },
            None => None,
        }),
{
    match raw {
        Some(n) => {
            if 0 < n && n <= isize::MAX as i64 { Some(n as isize) } else { None }
        },
        None => None,
    }
}

/// The stacking index (`z_index_field`): kept when it is a non-negative
/// 32-bit integer, else the default.
pub fn z_index_field(raw: Option<i64>) -> (r: i32)
    ensures
        r == (match raw {
            Some(n) => if 0 <= n && n <= i32::MAX { n as i32 } else { default_panel_z_index() },
            None => default_panel_z_index(),
        }),
{
    match raw {
        Some(n) => {
            if 0 <= n && n <= i32::MAX as i64 { n as i32 } else { 1 }
        },
        None => 1,
    }
}

/// The content of a kept panel.
pub struct RecordView {
    pub id: Seq<char>,
    pub panel_type: Seq<char>,
    pub source_hwnd: Option<isize>,
    pub tool_id: Option<Seq<char>>,
    pub title: Seq<char>,
    pub z_index: i32,
}

/// Which saved panels are kept, and as what: a panel needs an id, a type and
/// a valid size; a thumbnail panel needs a positive window handle, a tool
/// panel a tool id; any other type is dropped. The title defaults to
/// `Untitled` and the stacking index to 1.
pub open spec fn panel_record(f: PanelFields) -> Option<RecordView> {
    let id = field_text(opt_text(f.id));
    let panel_type = field_text(opt_text(f.panel_type));
    let title = match field_text(opt_text(f.title)) { Some(t) => t, None => default_panel_title() };
    let z_index = match f.z_index {
        Some(n) => if 0 <= n && n <= i32::MAX { n as i32 } else { default_panel_z_index() },
        None => default_panel_z_index(),
    };
    let hwnd = match f.source_hwnd {
        Some(n) => if 0 < n && n <= isize::MAX { Some(n as isize) } else { None },
        None => None,
    };
    let tool = field_text(opt_text(f.tool_id));
    if id is None || panel_type is None || !f.width_valid || !f.height_valid {
        None
    } else if panel_type->0 == "thumbnail"@ {
        if hwnd is Some {
            Some(RecordView { id: id->0, panel_type: panel_type->0, source_hwnd: hwnd, tool_id: None, title, z_index })
        } else {
            None
        }
    } else if panel_type->0 == "tool"@ {
        if tool is Some {
            Some(RecordView { id: id->0, panel_type: panel_type->0, source_hwnd: None, tool_id: tool, title, z_index })
        } else {
            None
        }
    } else {
        None
    }
}

impl PanelRecord {
    /// The content of the record.
    pub open spec fn view(&self) -> RecordView {
        RecordView {
            id: self.id@,
            panel_type: self.panel_type@,
            source_hwnd: self.source_hwnd,
            tool_id: opt_text(self.tool_id),
            title: self.title@,
            z_index: self.z_index,
        }
    }
}

/// Decides whether a saved panel is kept and with which values
/// (`parse_saved_panel` without the position and size).
pub fn parse_saved_panel(f: &PanelFields) -> (r: Option<PanelRecord>)
    ensures
        match panel_record(*f) {
            Some(v) => r matches Some(x) && x.view() == v,
            None => r is None,
        },
{
    let id = match string_field(&f.id) {
        Some(s) => s,
        None => return None,
    };
    let panel_type = match string_field(&f.panel_type) {
        Some(s) => s,
        None => return None,
    };
    let title = match string_field(&f.title) {
        Some(t) => t,
        None => "Untitled".to_owned(),
    };
    if !f.width_valid || !f.height_valid {
        return None;
    }
    let z_index = z_index_field(f.z_index);
    if str_eq(panel_type.as_str(), "thumbnail") {
        match positive_isize_field(f.source_hwnd) {
            Some(h) => Some(PanelRecord { id, panel_type, source_hwnd: Some(h), tool_id: None, title, z_index }),
            None => None,
        }
    } else if str_eq(panel_type.as_str(), "tool") {
        match string_field(&f.tool_id) {
            Some(t) => Some(PanelRecord { id, panel_type, source_hwnd: None, tool_id: Some(t), title, z_index }),
            None => None,
        }
    } else {
        None
    }
}

/// The kept panels of a layout, in file order; the caller counts the others
/// as skipped.
pub fn parse_saved_panels(all: &Vec<PanelFields>) -> (r: Vec<Option<PanelRecord>>)
    ensures
        r@.len() == all@.len(),
        forall|i: int| 0 <= i < all@.len() ==> match panel_record(all@[i]) {
            Some(v) => #[trigger] r@[i] matches Some(x) && x.view() == v,
            None => r@[i] is None,
        },
{
    let mut out: Vec<Option<PanelRecord>> = Vec::new();
    let mut i: usize = 0;
    while i < all.len()
        invariant
            i <= all@.len(),
            out@.len() == i,
            forall|k: int| 0 <= k < i ==> match panel_record(all@[k]) {
                Some(v) => #[trigger] out@[k] matches Some(x) && x.view() == v,
                None => out@[k] is None,
            },
        decreases all@.len() - i,
    {
        out.push(parse_saved_panel(&all[i]));
        i = i + 1;
    }
    out
}

/// Whether a text field is written as it reads back: not empty, and without
/// white space at either end.
pub open spec fn clean_text(s: Seq<char>) -> bool {
    s.len() > 0 && !is_space_char(s[0]) && !is_space_char(s.last())
}

/// Whether a record is one that reading back keeps as it is: clean texts,
/// a stacking index that is not negative, and the fields that its kind needs.
pub open spec fn clean_record(v: RecordView) -> bool {
    &&& clean_text(v.id)
    &&& clean_text(v.title)
    &&& v.z_index >= 0
    &&& ((v.panel_type == "thumbnail"@ && v.tool_id is None && (v.source_hwnd matches Some(h) && h > 0))
        || (v.panel_type == "tool"@ && v.source_hwnd is None && (v.tool_id matches Some(t) && clean_text(t))))
}

/// Whether `f` are the fields of record `v` as saving writes them, with
/// dimensions that pass their checks.
pub open spec fn written_as(f: PanelFields, v: RecordView) -> bool {
    &&& opt_text(f.id) == Some(v.id)
    &&& opt_text(f.panel_type) == Some(v.panel_type)
    &&& opt_text(f.title) == Some(v.title)
    &&& opt_text(f.tool_id) == v.tool_id
    &&& f.source_hwnd == (match v.source_hwnd { Some(h) => Some(h as i64), None => None::<i64> })
    &&& f.z_index == Some(v.z_index as i64)
    &&& f.width_valid
    &&& f.height_valid
}

/// A saved panel reads back as it was written: the fields of a clean record,
/// with valid dimensions, give back that record.
pub proof fn lemma_saved_panel_reads_back(f: PanelFields, v: RecordView)
    requires
        clean_record(v),
        written_as(f, v),
    ensures
        panel_record(f) == Some(v),
{
    reveal_strlit("thumbnail");
    reveal_strlit("tool");
    lemma_trimmed_fixed(v.id);
    lemma_trimmed_fixed(v.title);
    lemma_trimmed_fixed(v.panel_type);
    if v.tool_id is Some {
        lemma_trimmed_fixed(v.tool_id->0);
    }
    assert("thumbnail"@ != "tool"@);
}

/// The panels that reading a layout keeps: the record of each saved panel
/// that passes, in file order, the others skipped.
pub open spec fn read_layout(fs: Seq<PanelFields>) -> Seq<RecordView> {
    fs.filter_map(|f: PanelFields| panel_record(f))
}

/// A saved layout reads back as it was written: when every panel was written
/// from a clean record, each reads back as its record, none is skipped, and
/// the panels come back in the same order.
pub proof fn lemma_saved_layout_reads_back(fs: Seq<PanelFields>, vs: Seq<RecordView>)
    requires
        fs.len() == vs.len(),
        forall|i: int| 0 <= i < fs.len() ==> clean_record(#[trigger] vs[i]) && written_as(fs[i], vs[i]),
    ensures
        forall|i: int| 0 <= i < fs.len() ==> panel_record(#[trigger] fs[i]) == Some(vs[i]),
        read_layout(fs) == vs,
    decreases fs.len(),
{
    assert forall|i: int| 0 <= i < fs.len() implies panel_record(#[trigger] fs[i]) == Some(vs[i]) by {
        lemma_saved_panel_reads_back(fs[i], vs[i]);
    }
    if fs.len() > 0 {
        let n = fs.len() - 1;
        let fr = fs.drop_last();
        let vr = vs.drop_last();
        assert forall|i: int| 0 <= i < fr.len() implies clean_record(#[trigger] vr[i]) && written_as(fr[i], vr[i]) by {
            assert(fr[i] == fs[i]);
            assert(vr[i] == vs[i]);
        }
        lemma_saved_layout_reads_back(fr, vr);
        assert(panel_record(fs[n]) == Some(vs[n]));
        assert(read_layout(fs) == read_layout(fr) + seq![vs[n]]);
        assert(vs =~= vr + seq![vs[n]]);
    } else {
        assert(read_layout(fs) =~= vs);
    }
}

} // verus!
