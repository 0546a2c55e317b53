use better_panely::embedder::{
    check_embed_targets, embed_window, embedding_style, finish_embed, release_plan, release_window,
    ReleaseParent, SourceSnapshot,
};
use better_panely::panels::{
    embedded_style, find_tool, panel_default_size, panel_id, panel_tool_url, panel_webview_label,
    panel_webview_url, EmbedInfo, PanelType,
};
use better_panely::tools::{
    get_builtin_tools, settings_window_url, tool_window_config, tool_window_label,
    tool_window_request, tool_window_titles,
};
use better_panely::tray::{tray_action, tray_menu, tray_tooltip, TrayAction, TrayEntry, WORKBENCH_WINDOW_LABEL};

#[test]
fn builtin_tools_are_listed_in_order() {
    let tools = get_builtin_tools("en");
    let ids: Vec<&str> = tools.iter().map(|d| d.id.as_str()).collect();
    assert_eq!(ids, vec!["calculator", "notes", "timer", "weather"]);
    assert_eq!(tools[0].name, "Calculator");
    assert_eq!(tools[0].description, "Standard and scientific calculator");
    assert_eq!(tools[0].icon, "🔢");
    assert_eq!((tools[0].default_width, tools[0].default_height), (280, 420));
    assert_eq!(tools[0].url, "src/tools/calculator/index.html");
    assert_eq!((tools[1].default_width, tools[1].default_height), (350, 400));
    assert_eq!((tools[2].default_width, tools[2].default_height), (300, 200));
    assert_eq!((tools[3].default_width, tools[3].default_height), (300, 350));
    assert_eq!(tools[3].url, "src/tools/weather/index.html");
}

#[test]
fn builtin_tools_follow_the_language() {
    let tools = get_builtin_tools("zh");
    assert_eq!(tools[1].name, "便签");
    assert_eq!(tools[2].description, "倒计时和秒表");
}

#[test]
fn tool_windows_have_fixed_configs() {
    let c = tool_window_config("notes").unwrap();
    assert_eq!(c.title_key, "tool.notes");
    assert_eq!(c.url, "src/tools/notes/index.html");
    assert_eq!((c.width, c.height), (480, 520));
    assert!(tool_window_config("paint").is_none());
    assert_eq!(tool_window_label("timer"), "tool_timer_window");
}

#[test]
fn tool_window_request_localises_and_tags_the_page() {
    let r = tool_window_request("weather", "zh").unwrap();
    assert_eq!(r.label, "tool_weather_window");
    assert_eq!(r.title, "天气");
    assert_eq!(r.url, "src/tools/weather/index.html#lang=zh");
    assert_eq!((r.width, r.height), (380, 460));
    assert_eq!(tool_window_request("paint", "en").err().unwrap(), "Unknown tool: paint");
}

#[test]
fn tool_window_titles_cover_every_tool() {
    let titles = tool_window_titles("en");
    assert_eq!(titles.len(), 4);
    assert_eq!(titles[0].label, "tool_calculator_window");
    assert_eq!(titles[0].title, "Calculator");
    assert_eq!(titles[3].label, "tool_weather_window");
    assert_eq!(titles[3].title, "Weather");
    assert_eq!(settings_window_url("zh"), "src/tools/settings/index.html#lang=zh");
}

#[test]
fn tray_menu_lists_the_entries() {
    let menu = tray_menu("en");
    assert_eq!(menu.len(), 11);
    match &menu[0] {
        TrayEntry::Item(i) => {
            assert_eq!(i.id, "new_panel");
            assert_eq!(i.label, "New Panel");
        }
        _ => panic!("first entry is an item"),
    }
    assert!(matches!(menu[5], TrayEntry::Separator));
    match &menu[8] {
        TrayEntry::Submenu { label, items } => {
            assert_eq!(label, "Language");
            assert_eq!(items.len(), 2);
            assert_eq!(items[0].id, "lang_en");
            assert_eq!(items[1].label, "中文");
        }
        _ => panic!("the language submenu"),
    }
    match &menu[10] {
        TrayEntry::Item(i) => assert_eq!(i.label, "Quit"),
        _ => panic!("quit last"),
    }
    match &tray_menu("zh")[10] {
        TrayEntry::Item(i) => assert_eq!(i.label, "退出"),
        _ => panic!("quit last"),
    }
    assert_eq!(tray_tooltip("zh"), "BetterPanely");
    assert_eq!(WORKBENCH_WINDOW_LABEL, "workbench");
}

#[test]
fn tray_actions_follow_the_entry() {
    match tray_action("new_panel") {
        TrayAction::Workbench { focus, event } => {
            assert!(focus);
            let e = event.unwrap();
            assert_eq!(e.name, "tray:new-panel");
            assert!(e.payload.is_none());
        }
        _ => panic!("new panel goes to the workbench"),
    }
    match tray_action("timer") {
        TrayAction::Workbench { focus, event } => {
            assert!(!focus);
            let e = event.unwrap();
            assert_eq!(e.name, "tray:launch-tool");
            assert_eq!(e.payload.unwrap(), "timer");
        }
        _ => panic!("tools go to the workbench"),
    }
    match tray_action("lang_zh") {
        TrayAction::Workbench { event, .. } => assert_eq!(event.unwrap().payload.unwrap(), "zh"),
        _ => panic!("language goes to the workbench"),
    }
    assert!(matches!(tray_action("show_main"), TrayAction::Workbench { focus: true, event: None }));
    assert!(matches!(tray_action("settings"), TrayAction::OpenSettings));
    assert!(matches!(tray_action("quit"), TrayAction::Quit));
    assert!(matches!(tray_action("separator"), TrayAction::Ignore));
}

#[test]
fn panel_sizes_follow_the_tool() {
    let tool = |id: &str| PanelType::Tool { tool_id: id.to_string() };
    assert_eq!(panel_default_size(&tool("calculator")), (280, 420));
    assert_eq!(panel_default_size(&tool("notes")), (350, 400));
    assert_eq!(panel_default_size(&tool("timer")), (300, 200));
    assert_eq!(panel_default_size(&tool("weather")), (300, 350));
    assert_eq!(panel_default_size(&tool("other")), (400, 300));
    assert_eq!(panel_default_size(&PanelType::Embedded { embed_info: None }), (400, 300));
}

#[test]
fn panel_names_and_pages() {
    assert_eq!(panel_id(7), "panel_7");
    assert_eq!(panel_webview_label("panel_7"), "panel_panel_7");
    assert_eq!(panel_webview_url("src/tools/notes/index.html", "zh"), "src/tools/notes/index.html?lang=zh");
    assert_eq!(panel_tool_url("timer").unwrap(), "src/tools/timer/index.html");
    assert_eq!(panel_tool_url("clock").err().unwrap(), "Unknown tool: clock");
}

#[test]
fn find_tool_returns_the_first_match() {
    let tools = get_builtin_tools("en");
    assert_eq!(find_tool(&tools, "timer").unwrap(), 2);
    assert_eq!(find_tool(&tools, "calculator").unwrap(), 0);
    assert_eq!(find_tool(&tools, "clock").err().unwrap(), "Unknown tool: clock");
}

#[test]
fn embedded_style_drops_caption_and_frame() {
    assert_eq!(embedded_style(0x16CF_0000), 0x160B_0000);
    assert_eq!(embedded_style(0x00C4_0000), 0);
    assert_eq!(embedded_style(0x1000_0001), 0x1000_0001);
}

fn snapshot(style: u32) -> SourceSnapshot {
    SourceSnapshot { title: "Notepad".to_string(), exe: "notepad.exe".to_string(), style, parent: 0, thread_id: 42 }
}

#[test]
fn embedding_checks_both_windows() {
    assert_eq!(check_embed_targets(false, false).err().unwrap(), "Source window is not valid");
    assert_eq!(check_embed_targets(true, false).err().unwrap(), "Container window is not valid");
    assert!(check_embed_targets(true, true).is_ok());
    assert_eq!(embedding_style(&snapshot(0x16CF_0000)), 0x160B_0000);
}

#[test]
fn embedding_records_or_rolls_back() {
    let info = finish_embed(100, snapshot(0x16CF_0000), 7, 55).ok().unwrap();
    assert_eq!(info.source_hwnd, 100);
    assert_eq!(info.source_title, "Notepad");
    assert_eq!(info.source_exe, "notepad.exe");
    assert_eq!(info.original_style, 0x16CF_0000);
    assert_eq!(info.original_parent, 0);
    assert_eq!(info.thread_id, 42);
    let back = finish_embed(100, snapshot(0x16CF_0000), 7, 0).err().unwrap();
    assert_eq!(back.restore_style, 0x16CF_0000);
    assert_eq!((back.source_thread, back.container_thread), (42, 7));
    assert_eq!(back.message(), "SetParent failed");
}

#[test]
fn release_restores_style_and_parent() {
    let info = EmbedInfo {
        source_hwnd: 100,
        source_title: String::new(),
        source_exe: String::new(),
        original_style: 0x16CF_0000,
        original_parent: 9,
        thread_id: 42,
    };
    assert!(release_plan(&info, false, 7, true).is_none());
    let p = release_plan(&info, true, 7, true).unwrap();
    assert_eq!(p.restore_style, 0x16CF_0000);
    assert!(matches!(p.parent, ReleaseParent::Original(9)));
    assert_eq!(p.detach_from, Some(7));
    assert_eq!(p.placement, (100, 100, 400, 300));
    let p = release_plan(&info, true, 0, false).unwrap();
    assert!(matches!(p.parent, ReleaseParent::Desktop));
    assert_eq!(p.detach_from, None);
}

#[test]
fn portable_embedding_is_refused() {
    assert_eq!(embed_window(1, 2).err().unwrap(), "Window embedding is only supported on Windows");
    let info = EmbedInfo {
        source_hwnd: 1,
        source_title: String::new(),
        source_exe: String::new(),
        original_style: 0,
        original_parent: 0,
        thread_id: 0,
    };
    assert_eq!(release_window(1, &info).err().unwrap(), "Window embedding is only supported on Windows");
}

#[test]
fn every_tray_entry_does_something() {
    for lang in ["en", "zh"] {
        for entry in tray_menu(lang) {
            match entry {
                TrayEntry::Item(item) => assert!(!matches!(tray_action(&item.id), TrayAction::Ignore), "{}", item.id),
                TrayEntry::Submenu { items, .. } => {
                    for item in items {
                        assert!(!matches!(tray_action(&item.id), TrayAction::Ignore), "{}", item.id);
                    }
                }
                TrayEntry::Separator => {}
            }
        }
    }
}

#[test]
fn catalogue_tools_open_launch_and_size_alike() {
    for lang in ["en", "zh"] {
        for tool in get_builtin_tools(lang) {
            let window = tool_window_request(&tool.id, lang).unwrap();
            assert_eq!(window.url, format!("{}#lang={}", tool.url, lang));
            assert_eq!(window.title, tool.name);
            match tray_action(&tool.id) {
                TrayAction::Workbench { focus, event } => {
                    assert!(!focus);
                    let event = event.unwrap();
                    assert_eq!(event.name, "tray:launch-tool");
                    assert_eq!(event.payload.unwrap(), tool.id);
                }
                _ => panic!("a catalogue tool is launched from the tray"),
            }
            let size = panel_default_size(&PanelType::Tool { tool_id: tool.id.clone() });
            assert_eq!(size, (tool.default_width, tool.default_height));
            assert_eq!(panel_tool_url(&tool.id).unwrap(), tool.url);
        }
    }
}

#[test]
fn embedding_then_release_restores_the_window() {
    let snap = SourceSnapshot { title: "Mail".to_string(), exe: "mail.exe".to_string(), style: 0x16CF_0000, parent: 9, thread_id: 42 };
    assert_eq!(embedding_style(&snap) & 0x00C4_0000, 0);
    let info = finish_embed(100, snap, 7, 55).ok().unwrap();
    let p = release_plan(&info, true, 7, true).unwrap();
    assert_eq!(p.restore_style, 0x16CF_0000);
    assert!(matches!(p.parent, ReleaseParent::Original(9)));
    assert_eq!(p.placement, (100, 100, 400, 300));
    let p = release_plan(&info, true, 7, false).unwrap();
    assert!(matches!(p.parent, ReleaseParent::Desktop));
}
