//! The built-in tools: their catalogue, their stand-alone windows and the
//! panels that host them.

use vstd::prelude::*;

use crate::locales::{localized, t};
use crate::text::str_eq;

verus! {

/// A built-in tool as the catalogue lists it. Sizes are in whole logical pixels.
pub struct ToolDefinition {
    pub id: String,
    pub name: String,
    pub description: String,
    pub icon: String,
    pub default_width: u32,
    pub default_height: u32,
    pub url: String,
}

/// The content of a `ToolDefinition`.
pub struct ToolView {
    pub id: Seq<char>,
    pub name: Seq<char>,
    pub description: Seq<char>,
    pub icon: Seq<char>,
    pub default_width: u32,
    pub default_height: u32,
    pub url: Seq<char>,
}

impl View for ToolDefinition {
    type V = ToolView;

    open spec fn view(&self) -> ToolView {
        ToolView {
            id: self.id@,
            name: self.name@,
            description: self.description@,
            icon: self.icon@,
            default_width: self.default_width,
            default_height: self.default_height,
            url: self.url@,
        }
    }
}

/// The catalogue entry of one tool in language `lang`.
pub open spec fn tool_entry(
    id: Seq<char>,
    icon: Seq<char>,
    width: u32,
    height: u32,
    lang: Seq<char>,
) -> ToolView {
    ToolView {
        id,
        name: localized("tool."@ + id, lang),
        description: localized("tool."@ + id + ".desc"@, lang),
        icon,
        default_width: width,
        default_height: height,
        url: "src/tools/"@ + id + "/index.html"@,
    }
}

/// The catalogue of built-in tools in language `lang`, in menu order.
pub open spec fn builtin_tools(lang: Seq<char>) -> Seq<ToolView> {
    seq![
        tool_entry("calculator"@, "🔢"@, 280, 420, lang),
        tool_entry("notes"@, "📝"@, 350, 400, lang),
        tool_entry("timer"@, "⏱️"@, 300, 200, lang),
        tool_entry("weather"@, "🌤️"@, 300, 350, lang),
    ]
}

fn make_tool(
    id: &str,
    name_key: &str,
    desc_key: &str,
    icon: &str,
    width: u32,
    height: u32,
    url: &str,
    lang: &str,
) -> (r: ToolDefinition)
    requires
        name_key@ == "tool."@ + id@,
        desc_key@ == "tool."@ + id@ + ".desc"@,
        url@ == "src/tools/"@ + id@ + "/index.html"@,
    ensures
        r@ == tool_entry(id@, icon@, width, height, lang@),
{
    ToolDefinition {
        id: id.to_owned(),
        name: t(name_key, lang).to_owned(),
        description: t(desc_key, lang).to_owned(),
        icon: icon.to_owned(),
        default_width: width,
        default_height: height,
        url: url.to_owned(),
    }
}

/// All built-in tools with names and descriptions in `lang`.
pub fn get_builtin_tools(lang: &str) -> (r: Vec<ToolDefinition>)
    ensures
        r@.map_values(|d: ToolDefinition| d@) == builtin_tools(lang@),
{
    proof {
        reveal_strlit("tool.");
        reveal_strlit(".desc");
        reveal_strlit("src/tools/");
        reveal_strlit("/index.html");
        reveal_strlit("calculator");
        reveal_strlit("tool.calculator");
        reveal_strlit("tool.calculator.desc");
        reveal_strlit("src/tools/calculator/index.html");
        reveal_strlit("notes");
        reveal_strlit("tool.notes");
        reveal_strlit("tool.notes.desc");
        reveal_strlit("src/tools/notes/index.html");
        reveal_strlit("timer");
        reveal_strlit("tool.timer");
        reveal_strlit("tool.timer.desc");
        reveal_strlit("src/tools/timer/index.html");
        reveal_strlit("weather");
        reveal_strlit("tool.weather");
        reveal_strlit("tool.weather.desc");
        reveal_strlit("src/tools/weather/index.html");
    }
    assert("tool.calculator"@ =~= "tool."@ + "calculator"@);
    assert("tool.calculator.desc"@ =~= "tool."@ + "calculator"@ + ".desc"@);
    assert("src/tools/calculator/index.html"@ =~= "src/tools/"@ + "calculator"@ + "/index.html"@);
    assert("tool.notes"@ =~= "tool."@ + "notes"@);
    assert("tool.notes.desc"@ =~= "tool."@ + "notes"@ + ".desc"@);
    assert("src/tools/notes/index.html"@ =~= "src/tools/"@ + "notes"@ + "/index.html"@);
    assert("tool.timer"@ =~= "tool."@ + "timer"@);
    assert("tool.timer.desc"@ =~= "tool."@ + "timer"@ + ".desc"@);
    assert("src/tools/timer/index.html"@ =~= "src/tools/"@ + "timer"@ + "/index.html"@);
    assert("tool.weather"@ =~= "tool."@ + "weather"@);
    assert("tool.weather.desc"@ =~= "tool."@ + "weather"@ + ".desc"@);
    assert("src/tools/weather/index.html"@ =~= "src/tools/"@ + "weather"@ + "/index.html"@);
    let mut v: Vec<ToolDefinition> = Vec::new();
    v.push(make_tool("calculator", "tool.calculator", "tool.calculator.desc", "🔢", 280, 420,
        "src/tools/calculator/index.html", lang));
    v.push(make_tool("notes", "tool.notes", "tool.notes.desc", "📝", 350, 400,
        "src/tools/notes/index.html", lang));
    v.push(make_tool("timer", "tool.timer", "tool.timer.desc", "⏱️", 300, 200,
        "src/tools/timer/index.html", lang));
    v.push(make_tool("weather", "tool.weather", "tool.weather.desc", "🌤️", 300, 350,
        "src/tools/weather/index.html", lang));
    assert(v@.map_values(|d: ToolDefinition| d@) =~= builtin_tools(lang@));
    v
}

/// How a tool's stand-alone window is opened. Sizes are in whole logical pixels.
pub struct ToolWindowConfig {
    pub title_key: &'static str,
    pub url: &'static str,
    pub width: u32,
    pub height: u32,
}

/// The content of a `ToolWindowConfig`.
pub struct ToolWindowView {
    pub title_key: Seq<char>,
    pub url: Seq<char>,
    pub width: u32,
    pub height: u32,
}

/// The stand-alone window of tool `id`, if `id` names a built-in tool.
pub open spec fn tool_window_spec(id: Seq<char>) -> Option<ToolWindowView> {
    if id == "calculator"@ {
        Some(ToolWindowView { title_key: "tool.calculator"@, url: "src/tools/calculator/index.html"@, width: 320, height: 480 })
    } else if id == "notes"@ {
        Some(ToolWindowView { title_key: "tool.notes"@, url: "src/tools/notes/index.html"@, width: 480, height: 520 })
    } else if id == "timer"@ {
        Some(ToolWindowView { title_key: "tool.timer"@, url: "src/tools/timer/index.html"@, width: 360, height: 260 })
    } else if id == "weather"@ {
        Some(ToolWindowView { title_key: "tool.weather"@, url: "src/tools/weather/index.html"@, width: 380, height: 460 })
    } else {
        None
    }
}

impl ToolWindowConfig {
    /// The content of the configuration.
    pub open spec fn view(&self) -> ToolWindowView {
        ToolWindowView { title_key: self.title_key@, url: self.url@, width: self.width, height: self.height }
    }
}

/// The window configuration of tool `tool_id`.
pub fn tool_window_config(tool_id: &str) -> (r: Option<ToolWindowConfig>)
    ensures
        match tool_window_spec(tool_id@) {
            Some(c) => r matches Some(x) && x.view() == c,
            None => r is None,
        },
{
    if str_eq(tool_id, "calculator") {
        Some(ToolWindowConfig { title_key: "tool.calculator", url: "src/tools/calculator/index.html", width: 320, height: 480 })
    } else if str_eq(tool_id, "notes") {
        Some(ToolWindowConfig { title_key: "tool.notes", url: "src/tools/notes/index.html", width: 480, height: 520 })
    } else if str_eq(tool_id, "timer") {
        Some(ToolWindowConfig { title_key: "tool.timer", url: "src/tools/timer/index.html", width: 360, height: 260 })
    } else if str_eq(tool_id, "weather") {
        Some(ToolWindowConfig { title_key: "tool.weather", url: "src/tools/weather/index.html", width: 380, height: 460 })
    } else {
        None
    }
}

/// The window label of tool `id`'s stand-alone window.
pub open spec fn tool_window_label_spec(id: Seq<char>) -> Seq<char> {
    "tool_"@ + id + "_window"@
}

/// The window label of a tool's stand-alone window, `tool_<id>_window`.
pub fn tool_window_label(tool_id: &str) -> (r: String)
    ensures
        r@ == tool_window_label_spec(tool_id@),
{
    let mut label = "tool_".to_owned();
    label.append(tool_id);
    label.append("_window");
    label
}

/// What it takes to show a tool's stand-alone window.
pub struct ToolWindowRequest {
    pub label: String,
    pub title: String,
    pub url: String,
    pub width: u32,
    pub height: u32,
}

/// Prepares opening the stand-alone window of `tool_id` in `lang`: the window
/// is titled in `lang` and its page gets the language after `#lang=`. An
/// unknown tool is refused with `Unknown tool: <id>`.
pub fn tool_window_request(tool_id: &str, lang: &str) -> (r: Result<ToolWindowRequest, String>)
    ensures
        match tool_window_spec(tool_id@) {
            None => r matches Err(e) && e@ == "Unknown tool: "@ + tool_id@,
            Some(c) => r matches Ok(q) && {
                &&& q.label@ == tool_window_label_spec(tool_id@)
                &&& q.title@ == localized(c.title_key, lang@)
                &&& q.url@ == c.url + "#lang="@ + lang@
                &&& q.width == c.width
                &&& q.height == c.height
            },
        },
{
    match tool_window_config(tool_id) {
        None => {
            let mut e = "Unknown tool: ".to_owned();
            e.append(tool_id);
            Err(e)
        },
        Some(config) => {
            let mut url = config.url.to_owned();
            url.append("#lang=");
            url.append(lang);
            Ok(ToolWindowRequest {
                label: tool_window_label(tool_id),
                title: t(config.title_key, lang).to_owned(),
                url,
                width: config.width,
                height: config.height,
            })
        },
    }
}

/// The tools whose stand-alone windows are relabelled on a language change.
pub open spec fn tool_window_ids() -> Seq<Seq<char>> {
    seq!["calculator"@, "notes"@, "timer"@, "weather"@]
}

/// A window label and the title it should carry.
pub struct WindowTitle {
    pub label: String,
    pub title: String,
}

/// The label and new title of every tool window, for a change to `lang`
/// (`refresh_tool_window_titles`); windows that are not open are skipped by
/// the caller.
pub fn tool_window_titles(lang: &str) -> (r: Vec<WindowTitle>)
    ensures
        r.len() == tool_window_ids().len(),
        forall|i: int| 0 <= i < r.len() ==> {
            let id = #[trigger] tool_window_ids()[i];
            &&& r[i].label@ == tool_window_label_spec(id)
            &&& r[i].title@ == localized(tool_window_spec(id)->0.title_key, lang@)
        },
{
    let ids: [&str; 4] = ["calculator", "notes", "timer", "weather"];
    let mut out: Vec<WindowTitle> = Vec::new();
    let mut i: usize = 0;
    while i < 4
        invariant
            0 <= i <= 4,
            out.len() == i,
            ids@ == seq!["calculator", "notes", "timer", "weather"],
            forall|k: int| 0 <= k < i ==> {
                let id = #[trigger] tool_window_ids()[k];
                &&& out[k].label@ == tool_window_label_spec(id)
                &&& out[k].title@ == localized(tool_window_spec(id)->0.title_key, lang@)
            },
        decreases 4 - i,
    {
        let id = ids[i];
        assert(id@ == tool_window_ids()[i as int]);
        match tool_window_config(id) {
            Some(config) => {
                out.push(WindowTitle { label: tool_window_label(id), title: t(config.title_key, lang).to_owned() });
            },
            None => {
                proof {
                    reveal_strlit("calculator");
                    reveal_strlit("notes");
                    reveal_strlit("timer");
                    reveal_strlit("weather");
                }
                assert(false);
            },
        }
        i = i + 1;
    }
    out
}

/// The page of the settings window in language `lang`.
pub fn settings_window_url(lang: &str) -> (r: String)
    ensures
        r@ == "src/tools/settings/index.html#lang="@ + lang@,
{
    let mut url = "src/tools/settings/index.html#lang=".to_owned();
    url.append(lang);
    url
}

/// Every tool of the catalogue has a stand-alone window, which shows the
/// catalogue's page for it and is titled with the tool's name.
pub proof fn lemma_catalogue_tools_have_windows(lang: Seq<char>, i: int)
    requires
        0 <= i < builtin_tools(lang).len(),
    ensures
        tool_window_spec(builtin_tools(lang)[i].id) matches Some(c)
            && c.url == builtin_tools(lang)[i].url
            && localized(c.title_key, lang) == builtin_tools(lang)[i].name,
{
    reveal_strlit("tool.");
    reveal_strlit("src/tools/");
    reveal_strlit("/index.html");
    reveal_strlit("calculator");
    reveal_strlit("tool.calculator");
    reveal_strlit("src/tools/calculator/index.html");
    reveal_strlit("notes");
    reveal_strlit("tool.notes");
    reveal_strlit("src/tools/notes/index.html");
    reveal_strlit("timer");
    reveal_strlit("tool.timer");
    reveal_strlit("src/tools/timer/index.html");
    reveal_strlit("weather");
    reveal_strlit("tool.weather");
    reveal_strlit("src/tools/weather/index.html");
    let id = builtin_tools(lang)[i].id;
    if i == 0 {
        assert("tool."@ + id =~= "tool.calculator"@);
        assert("src/tools/"@ + id + "/index.html"@ =~= "src/tools/calculator/index.html"@);
        assert(tool_window_spec(id)->0.title_key == "tool.calculator"@);
    } else if i == 1 {
        assert("tool."@ + id =~= "tool.notes"@);
        assert("src/tools/"@ + id + "/index.html"@ =~= "src/tools/notes/index.html"@);
        assert(tool_window_spec(id)->0.title_key == "tool.notes"@);
    } else if i == 2 {
        assert("tool."@ + id =~= "tool.timer"@);
        assert("src/tools/"@ + id + "/index.html"@ =~= "src/tools/timer/index.html"@);
        assert(tool_window_spec(id)->0.title_key == "tool.timer"@);
    } else {
        assert("tool."@ + id =~= "tool.weather"@);
        assert("src/tools/"@ + id + "/index.html"@ =~= "src/tools/weather/index.html"@);
        assert(tool_window_spec(id)->0.title_key == "tool.weather"@);
    }
}

} // verus!
