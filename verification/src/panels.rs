//! Stand-alone panels: their kinds, default sizes, ids and windows, and the
//! window style an embedded window is given.

use vstd::prelude::*;

use crate::text::{str_eq, decimal, push_decimal};
use crate::tools::{ToolDefinition, ToolView, builtin_tools};

verus! {

/// What a window that was embedded in a panel looked like before.
pub struct EmbedInfo {
    pub source_hwnd: isize,
    pub source_title: String,
    pub source_exe: String,
    pub original_style: u32,
    pub original_parent: isize,
    pub thread_id: u32,
}

/// What a panel shows.
pub enum PanelType {
    /// A built-in tool.
    Tool { tool_id: String },
    /// An embedded window, once one is embedded.
    Embedded { embed_info: Option<EmbedInfo> },
}

/// The default size of a panel of kind `t`, in whole logical pixels.
pub open spec fn default_panel_size(t: PanelType) -> (u32, u32) {
    match t {
        PanelType::Tool { tool_id } => {
            let id = tool_id@;
            if id == "calculator"@ { (280, 420) }
            else if id == "notes"@ { (350, 400) }
            else if id == "timer"@ { (300, 200) }
            else if id == "weather"@ { (300, 350) }
            else { (400, 300) }
        },
        PanelType::Embedded { .. } => (400, 300),
    }
}

/// The size a new panel of this kind starts at.
pub fn panel_default_size(panel_type: &PanelType) -> (r: (u32, u32))
    ensures
        r == default_panel_size(*panel_type),
{
    proof {
        reveal_strlit("calculator");
        reveal_strlit("notes");
        reveal_strlit("timer");
        reveal_strlit("weather");
    }
    match panel_type {
        PanelType::Tool { tool_id } => {
            if str_eq(tool_id.as_str(), "calculator") { (280, 420) }
            else if str_eq(tool_id.as_str(), "notes") { (350, 400) }
            else if str_eq(tool_id.as_str(), "timer") { (300, 200) }
            else if str_eq(tool_id.as_str(), "weather") { (300, 350) }
            else { (400, 300) }
        },
        PanelType::Embedded { .. } => (400, 300),
    }
}

/// The id of the `n`-th stand-alone panel, `panel_<n>`.
pub fn panel_id(n: u32) -> (r: String)
    ensures
        r@ == "panel_"@ + decimal(n as nat),
{
    let mut id = "panel_".to_owned();
    push_decimal(&mut id, n);
    id
}

/// The window label of panel `id`'s tool window, `panel_<id>`.
pub fn panel_webview_label(id: &str) -> (r: String)
    ensures
        r@ == "panel_"@ + id@,
{
    let mut label = "panel_".to_owned();
    label.append(id);
    label
}

/// The page of a tool panel in language `lang`: `<url>?lang=<lang>`.
pub fn panel_webview_url(url: &str, lang: &str) -> (r: String)
    ensures
        r@ == url@ + "?lang="@ + lang@,
{
    let mut u = url.to_owned();
    u.append("?lang=");
    u.append(lang);
    u
}

/// The page a tool panel shows; an unknown tool is refused
/// with `Unknown tool: <id>`.
pub fn panel_tool_url(tool_id: &str) -> (r: Result<&'static str, String>)
    ensures
        tool_id@ == "calculator"@ ==> (r matches Ok(u) && u@ == "src/tools/calculator/index.html"@),
        tool_id@ == "notes"@ ==> (r matches Ok(u) && u@ == "src/tools/notes/index.html"@),
        tool_id@ == "timer"@ ==> (r matches Ok(u) && u@ == "src/tools/timer/index.html"@),
        tool_id@ == "weather"@ ==> (r matches Ok(u) && u@ == "src/tools/weather/index.html"@),
        !(tool_id@ == "calculator"@ || tool_id@ == "notes"@ || tool_id@ == "timer"@ || tool_id@ == "weather"@)
            ==> (r matches Err(e) && e@ == "Unknown tool: "@ + tool_id@),
{
    proof {
        reveal_strlit("calculator");
        reveal_strlit("notes");
        reveal_strlit("timer");
        reveal_strlit("weather");
        assert("calculator"@.len() != "notes"@.len());
        assert("calculator"@.len() != "timer"@.len());
        assert("calculator"@.len() != "weather"@.len());
        assert("notes"@[0] != "timer"@[0]);
        assert("notes"@.len() != "weather"@.len());
        assert("timer"@.len() != "weather"@.len());
    }
    if str_eq(tool_id, "calculator") {
        Ok("src/tools/calculator/index.html")
    } else if str_eq(tool_id, "notes") {
        Ok("src/tools/notes/index.html")
    } else if str_eq(tool_id, "timer") {
        Ok("src/tools/timer/index.html")
    } else if str_eq(tool_id, "weather") {
        Ok("src/tools/weather/index.html")
    } else {
        let mut e = "Unknown tool: ".to_owned();
        e.append(tool_id);
        Err(e)
    }
}

/// The first tool of `tools` with id `tool_id`, for launching it; an unknown
/// tool is refused with `Unknown tool: <id>`.
pub fn find_tool(tools: &Vec<ToolDefinition>, tool_id: &str) -> (r: Result<usize, String>)
    ensures
        match r {
            Ok(i) => i < tools@.len() && tools@[i as int].id@ == tool_id@
                && forall|j: int| 0 <= j < i ==> tools@[j].id@ != tool_id@,
            Err(e) => e@ == "Unknown tool: "@ + tool_id@
                && forall|j: int| 0 <= j < tools@.len() ==> tools@[j].id@ != tool_id@,
        },
{
    let mut i: usize = 0;
    while i < tools.len()
        invariant
            i <= tools@.len(),
            forall|j: int| 0 <= j < i ==> tools@[j].id@ != tool_id@,
        decreases tools@.len() - i,
    {
        if str_eq(tools[i].id.as_str(), tool_id) {
            return Ok(i);
        }
        i = i + 1;
    }
    let mut e = "Unknown tool: ".to_owned();
    e.append(tool_id);
    Err(e)
}

/// `WS_CAPTION`.
pub open spec fn caption_style() -> u32 { 0x00C0_0000 }
/// `WS_THICKFRAME`.
pub open spec fn thick_frame_style() -> u32 { 0x0004_0000 }

/// The style an embedded window gets: its own without caption and sizing border.
pub fn embedded_style(original_style: u32) -> (r: u32)
    ensures
        r == original_style & !(caption_style() | thick_frame_style()),
        r & caption_style() == 0,
        r & thick_frame_style() == 0,
{
    let r = original_style & !(0x00C0_0000u32 | 0x0004_0000u32);
    assert(r & 0x00C0_0000u32 == 0 && r & 0x0004_0000u32 == 0) by (bit_vector)
        requires r == original_style & !(0x00C0_0000u32 | 0x0004_0000u32);
    r
}

/// A panel of a catalogue tool starts at the size the catalogue gives that tool.
pub proof fn lemma_tool_panels_take_catalogue_size(lang: Seq<char>, i: int, t: PanelType)
    requires
        0 <= i < builtin_tools(lang).len(),
        t matches PanelType::Tool { tool_id } && tool_id@ == builtin_tools(lang)[i].id,
    ensures
        default_panel_size(t) == (builtin_tools(lang)[i].default_width, builtin_tools(lang)[i].default_height),
{
    reveal_strlit("calculator");
    reveal_strlit("notes");
    reveal_strlit("timer");
    reveal_strlit("weather");
    assert("calculator"@.len() != "notes"@.len());
    assert("calculator"@.len() != "timer"@.len());
    assert("calculator"@.len() != "weather"@.len());
    assert("notes"@[0] != "timer"@[0]);
    assert("notes"@.len() != "weather"@.len());
    assert("timer"@.len() != "weather"@.len());
}

} // verus!
