//! The tray menu: its entries in the current language and what choosing an
//! entry does.

use vstd::prelude::*;

use crate::locales::{localized, t};
use crate::text::str_eq;
use crate::tools::builtin_tools;

verus! {

/// The label of the workbench window.
pub const WORKBENCH_WINDOW_LABEL: &'static str = "workbench";

/// One clickable menu item.
pub struct MenuItem {
    pub id: String,
    pub label: String,
}

/// An entry of the tray menu.
pub enum TrayEntry {
    Item(MenuItem),
    Separator,
    Submenu { label: String, items: Vec<MenuItem> },
}

/// The content of a menu item: its id and label.
pub open spec fn item_view(i: MenuItem) -> (Seq<char>, Seq<char>) {
    (i.id@, i.label@)
}

/// The content of a tray entry.
pub enum EntryView {
    Item { id: Seq<char>, label: Seq<char> },
    Separator,
    Submenu { label: Seq<char>, items: Seq<(Seq<char>, Seq<char>)> },
}

impl View for TrayEntry {
    type V = EntryView;

    open spec fn view(&self) -> EntryView {
        match self {
            TrayEntry::Item(i) => EntryView::Item { id: i.id@, label: i.label@ },
            TrayEntry::Separator => EntryView::Separator,
            TrayEntry::Submenu { label, items } => EntryView::Submenu {
                label: label@,
                items: items@.map_values(|i: MenuItem| item_view(i)),
            },
        }
    }
}

/// An item whose label is the localisation of `menu.<id>`.
pub open spec fn menu_item(id: Seq<char>, lang: Seq<char>) -> EntryView {
    EntryView::Item { id, label: localized("menu."@ + id, lang) }
}

/// The tray menu in language `lang`: the panel and tool launchers, a
/// separator, the main window, settings and the language submenu, a
/// separator and quit.
pub open spec fn tray_menu_spec(lang: Seq<char>) -> Seq<EntryView> {
    seq![
        menu_item("new_panel"@, lang),
        menu_item("calculator"@, lang),
        menu_item("notes"@, lang),
        menu_item("timer"@, lang),
        menu_item("weather"@, lang),
        EntryView::Separator,
        menu_item("show_main"@, lang),
        menu_item("settings"@, lang),
        EntryView::Submenu {
            label: localized("menu.language"@, lang),
            items: seq![
                ("lang_en"@, localized("menu.lang_en"@, lang)),
                ("lang_zh"@, localized("menu.lang_zh"@, lang)),
            ],
        },
        EntryView::Separator,
        menu_item("quit"@, lang),
    ]
}

fn item(id: &str, key: &str, lang: &str) -> (r: MenuItem)
    requires
        key@ == "menu."@ + id@,
    ensures
        r.id@ == id@,
        r.label@ == localized("menu."@ + id@, lang@),
{
    MenuItem { id: id.to_owned(), label: t(key, lang).to_owned() }
}

/// The tray menu in language `lang` (the menu of `create_tray`).
pub fn tray_menu(lang: &str) -> (r: Vec<TrayEntry>)
    ensures
        r@.map_values(|e: TrayEntry| e@) == tray_menu_spec(lang@),
{
    proof {
        reveal_strlit("menu.");
        reveal_strlit("new_panel");
        reveal_strlit("menu.new_panel");
        reveal_strlit("calculator");
        reveal_strlit("menu.calculator");
        reveal_strlit("notes");
        reveal_strlit("menu.notes");
        reveal_strlit("timer");
        reveal_strlit("menu.timer");
        reveal_strlit("weather");
        reveal_strlit("menu.weather");
        reveal_strlit("show_main");
        reveal_strlit("menu.show_main");
        reveal_strlit("settings");
        reveal_strlit("menu.settings");
        reveal_strlit("quit");
        reveal_strlit("menu.quit");
    }
    assert("menu.new_panel"@ =~= "menu."@ + "new_panel"@);
    assert("menu.calculator"@ =~= "menu."@ + "calculator"@);
    assert("menu.notes"@ =~= "menu."@ + "notes"@);
    assert("menu.timer"@ =~= "menu."@ + "timer"@);
    assert("menu.weather"@ =~= "menu."@ + "weather"@);
    assert("menu.show_main"@ =~= "menu."@ + "show_main"@);
    assert("menu.settings"@ =~= "menu."@ + "settings"@);
    assert("menu.quit"@ =~= "menu."@ + "quit"@);
    let mut languages: Vec<MenuItem> = Vec::new();
    languages.push(MenuItem { id: "lang_en".to_owned(), label: t("menu.lang_en", lang).to_owned() });
    languages.push(MenuItem { id: "lang_zh".to_owned(), label: t("menu.lang_zh", lang).to_owned() });
    assert(languages@.map_values(|i: MenuItem| item_view(i)) =~= seq![
        ("lang_en"@, localized("menu.lang_en"@, lang@)),
        ("lang_zh"@, localized("menu.lang_zh"@, lang@)),
    ]);
    let mut v: Vec<TrayEntry> = Vec::new();
    v.push(TrayEntry::Item(item("new_panel", "menu.new_panel", lang)));
    v.push(TrayEntry::Item(item("calculator", "menu.calculator", lang)));
    v.push(TrayEntry::Item(item("notes", "menu.notes", lang)));
    v.push(TrayEntry::Item(item("timer", "menu.timer", lang)));
    v.push(TrayEntry::Item(item("weather", "menu.weather", lang)));
    v.push(TrayEntry::Separator);
    v.push(TrayEntry::Item(item("show_main", "menu.show_main", lang)));
    v.push(TrayEntry::Item(item("settings", "menu.settings", lang)));
    v.push(TrayEntry::Submenu { label: t("menu.language", lang).to_owned(), items: languages });
    v.push(TrayEntry::Separator);
    v.push(TrayEntry::Item(item("quit", "menu.quit", lang)));
    assert(v@.map_values(|e: TrayEntry| e@) =~= tray_menu_spec(lang@));
    v
}

/// The tooltip of the tray icon in language `lang`.
pub fn tray_tooltip(lang: &str) -> (r: &'static str)
    ensures
        r@ == localized("tray.tooltip"@, lang@),
{
    t("tray.tooltip", lang)
}

/// An event sent to the workbench window: a name and an optional text payload
/// (none stands for the unit payload).
pub struct WorkbenchEvent {
    pub name: String,
    pub payload: Option<String>,
}

/// What choosing a tray entry does.
pub enum TrayAction {
    /// Show the workbench window, focus it if asked, then send it the event, if any.
    Workbench { focus: bool, event: Option<WorkbenchEvent> },
    /// Show the settings window, opening it in the current language if needed.
    OpenSettings,
    /// Release every thumbnail and leave the application.
    Quit,
    /// Nothing.
    Ignore,
}

/// The content of a tray action.
pub enum ActionView {
    Workbench { focus: bool, event: Option<(Seq<char>, Option<Seq<char>>)> },
    OpenSettings,
    Quit,
    Ignore,
}

impl View for TrayAction {
    type V = ActionView;

    open spec fn view(&self) -> ActionView {
        match self {
            TrayAction::Workbench { focus, event } => ActionView::Workbench {
                focus: *focus,
                event: match event {
                    Some(e) => Some((e.name@, match &e.payload { Some(p) => Some(p@), None => None })),
                    None => None,
                },
            },
            TrayAction::OpenSettings => ActionView::OpenSettings,
            TrayAction::Quit => ActionView::Quit,
            TrayAction::Ignore => ActionView::Ignore,
        }
    }
}

/// What the tray entry `id` does: the panel entry focuses the workbench and
/// asks it for a new panel; a tool entry asks it to launch that tool; the
/// main-window entry shows and focuses it; a language entry asks it to switch
/// language; settings opens the settings window; quit leaves; anything else
/// is ignored.
pub open spec fn tray_action_spec(id: Seq<char>) -> ActionView {
    if id == "new_panel"@ {
        ActionView::Workbench { focus: true, event: Some(("tray:new-panel"@, None)) }
    } else if id == "calculator"@ || id == "notes"@ || id == "timer"@ || id == "weather"@ {
        ActionView::Workbench { focus: false, event: Some(("tray:launch-tool"@, Some(id))) }
    } else if id == "show_main"@ {
        ActionView::Workbench { focus: true, event: None }
    } else if id == "settings"@ {
        ActionView::OpenSettings
    } else if id == "lang_en"@ {
        ActionView::Workbench { focus: false, event: Some(("tray:set-language"@, Some("en"@))) }
    } else if id == "lang_zh"@ {
        ActionView::Workbench { focus: false, event: Some(("tray:set-language"@, Some("zh"@))) }
    } else if id == "quit"@ {
        ActionView::Quit
    } else {
        ActionView::Ignore
    }
}

fn signal(focus: bool, name: &str, payload: Option<&str>) -> (r: TrayAction)
    ensures
        r@ == (ActionView::Workbench { focus, event: Some((name@, match payload { Some(p) => Some(p@), None => None })) }),
{
    let payload = match payload {
        Some(p) => Some(p.to_owned()),
        None => None,
    };
    TrayAction::Workbench { focus, event: Some(WorkbenchEvent { name: name.to_owned(), payload }) }
}

/// What choosing the tray entry `menu_id` does (`handle_tray_menu`).
pub fn tray_action(menu_id: &str) -> (r: TrayAction)
    ensures
        r@ == tray_action_spec(menu_id@),
{
    if str_eq(menu_id, "new_panel") {
        signal(true, "tray:new-panel", None)
    } else if str_eq(menu_id, "calculator") || str_eq(menu_id, "notes") || str_eq(menu_id, "timer")
        || str_eq(menu_id, "weather") {
        signal(false, "tray:launch-tool", Some(menu_id))
    } else if str_eq(menu_id, "show_main") {
        TrayAction::Workbench { focus: true, event: None }
    } else if str_eq(menu_id, "settings") {
        TrayAction::OpenSettings
    } else if str_eq(menu_id, "lang_en") {
        signal(false, "tray:set-language", Some("en"))
    } else if str_eq(menu_id, "lang_zh") {
        signal(false, "tray:set-language", Some("zh"))
    } else if str_eq(menu_id, "quit") {
        TrayAction::Quit
    } else {
        TrayAction::Ignore
    }
}

/// Whether choosing the tray entry `id` does something.
pub open spec fn handled(id: Seq<char>) -> bool {
    !(tray_action_spec(id) is Ignore)
}

/// Every entry of the tray menu, in the submenu too, is handled.
pub proof fn lemma_menu_entries_are_handled(lang: Seq<char>)
    ensures
        forall|i: int| 0 <= i < tray_menu_spec(lang).len() ==> match #[trigger] tray_menu_spec(lang)[i] {
            EntryView::Item { id, .. } => handled(id),
            EntryView::Submenu { items, .. } => forall|j: int| 0 <= j < items.len() ==> handled(#[trigger] items[j].0),
            EntryView::Separator => true,
        },
{
    reveal_strlit("new_panel");
    reveal_strlit("calculator");
    reveal_strlit("notes");
    reveal_strlit("timer");
    reveal_strlit("weather");
    reveal_strlit("show_main");
    reveal_strlit("settings");
    reveal_strlit("lang_en");
    reveal_strlit("lang_zh");
    reveal_strlit("quit");
    let menu = tray_menu_spec(lang);
    assert forall|i: int| 0 <= i < menu.len() implies match #[trigger] menu[i] {
        EntryView::Item { id, .. } => handled(id),
        EntryView::Submenu { items, .. } => forall|j: int| 0 <= j < items.len() ==> handled(#[trigger] items[j].0),
        EntryView::Separator => true,
    } by {
        if i == 8 {
            let items = seq![
                ("lang_en"@, localized("menu.lang_en"@, lang)),
                ("lang_zh"@, localized("menu.lang_zh"@, lang)),
            ];
            assert(handled(items[0].0));
            assert(handled(items[1].0));
        }
    }
}

/// Each tool of the catalogue can be launched from the tray: its entry asks
/// the workbench to launch it.
pub proof fn lemma_catalogue_tools_launch_from_tray(lang: Seq<char>, i: int)
    requires
        0 <= i < builtin_tools(lang).len(),
    ensures
        tray_action_spec(builtin_tools(lang)[i].id) == (ActionView::Workbench {
            focus: false,
            event: Some(("tray:launch-tool"@, Some(builtin_tools(lang)[i].id))),
        }),
{
    reveal_strlit("new_panel");
    reveal_strlit("calculator");
    reveal_strlit("notes");
    reveal_strlit("timer");
    reveal_strlit("weather");
}

/// A language entry asks for the language its id names: whenever an entry
/// asks the workbench to switch language, its id is `lang_` followed by the
/// language asked for, and the entries `lang_en` and `lang_zh` do ask.
pub proof fn lemma_language_entries_ask_for_their_language(id: Seq<char>)
    ensures
        match tray_action_spec(id) {
            ActionView::Workbench { event: Some((name, payload)), .. } => name == "tray:set-language"@
                ==> (payload matches Some(code) && "lang_"@ + code == id),
            _ => true,
        },
        (id == "lang_en"@ || id == "lang_zh"@) ==> (tray_action_spec(id) matches ActionView::Workbench {
            event: Some((name, Some(code))), .. } && name == "tray:set-language"@ && "lang_"@ + code == id),
{
    reveal_strlit("tray:set-language");
    reveal_strlit("tray:launch-tool");
    reveal_strlit("tray:new-panel");
    reveal_strlit("lang_");
    reveal_strlit("lang_en");
    reveal_strlit("lang_zh");
    reveal_strlit("en");
    reveal_strlit("zh");
    reveal_strlit("new_panel");
    reveal_strlit("calculator");
    reveal_strlit("notes");
    reveal_strlit("timer");
    reveal_strlit("weather");
    reveal_strlit("show_main");
    reveal_strlit("settings");
    reveal_strlit("quit");
    assert("tray:launch-tool"@.len() != "tray:set-language"@.len());
    assert("tray:new-panel"@.len() != "tray:set-language"@.len());
    assert("lang_en"@.len() != "new_panel"@.len());
    assert("lang_en"@.len() != "calculator"@.len());
    assert("lang_en"@.len() != "notes"@.len());
    assert("lang_en"@.len() != "timer"@.len());
    assert("lang_en"@[0] != "weather"@[0]);
    assert("lang_en"@.len() != "show_main"@.len());
    assert("lang_en"@.len() != "settings"@.len());
    assert("lang_zh"@.len() != "new_panel"@.len());
    assert("lang_zh"@.len() != "calculator"@.len());
    assert("lang_zh"@.len() != "notes"@.len());
    assert("lang_zh"@.len() != "timer"@.len());
    assert("lang_zh"@[0] != "weather"@[0]);
    assert("lang_zh"@.len() != "show_main"@.len());
    assert("lang_zh"@.len() != "settings"@.len());
    assert("lang_en"@[5] != "lang_zh"@[5]);
    assert("lang_"@ + "en"@ =~= "lang_en"@);
    assert("lang_"@ + "zh"@ =~= "lang_zh"@);
}

} // verus!
