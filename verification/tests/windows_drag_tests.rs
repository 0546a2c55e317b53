use better_panely::drag_hook::{DragCaptureState, HoverEvent};
use better_panely::drag_monitor::{
    cursor_in_workbench, is_window_event, payload_for_source, DragPositionPayload, MonitorState,
    PollDecision, WorkbenchClientRect,
};
use better_panely::layout::{
    parse_saved_panel, parse_saved_panels, positive_isize_field, string_field, z_index_field, PanelFields,
};
use better_panely::windows_list::{
    check_compatibility, compatibility, list_window, list_window_with, sort_listing, sort_windows, RawWindow, WindowInfo,
    WindowRect,
};
use better_panely::workbench::{
    add_thumbnail_result, capture_candidate, capture_window_via_hotkey_internal, check_thumbnail_source,
    choose_focused_window, find_window, to_window_info, RectInfo,
};
use better_panely::thumbnail::ThumbnailSourceSize;

fn wrect(left: i32, top: i32, right: i32, bottom: i32) -> WindowRect {
    WindowRect { left, top, right, bottom }
}

fn raw(title: &str, class_name: &str, exe: &str) -> RawWindow {
    RawWindow {
        hwnd: 10,
        visible: true,
        cloaked: false,
        style: 0x10CF_0000,
        ex_style: 0,
        title: title.to_string(),
        class_name: class_name.to_string(),
        pid: 1234,
        exe_path: exe.to_string(),
        rect: wrect(0, 0, 800, 600),
        rect_known: true,
        elevated: false,
        screen_width: 1920,
        screen_height: 1080,
    }
}

fn info(hwnd: isize, title: &str, compatible: bool, reason: Option<&str>) -> WindowInfo {
    WindowInfo {
        hwnd,
        title: title.to_string(),
        exe_path: "app.exe".to_string(),
        class_name: "AppClass".to_string(),
        is_compatible: compatible,
        incompatibility_reason: reason.map(|r| r.to_string()),
        pid: 7,
        rect: wrect(1, 2, 3, 4),
    }
}

#[test]
fn compatibility_reasons_in_order() {
    assert_eq!(check_compatibility("C:\\Windows\\System32\\ApplicationFrameHost.exe", "Progman", false, false, false),
        (false, Some("UWP apps cannot be captured".to_string())));
    assert_eq!(check_compatibility("explorer.exe", "Shell_TrayWnd", false, false, false),
        (false, Some("System shell window".to_string())));
    assert_eq!(check_compatibility("x.exe", "BetterPanelyWorkbench", true, false, false),
        (false, Some("BetterPanely window".to_string())));
    assert_eq!(check_compatibility("x.exe", "Notepad", true, true, false),
        (false, Some("Already a child window".to_string())));
    assert_eq!(check_compatibility("x.exe", "Notepad", false, true, true),
        (false, Some("Administrator process (UIPI blocked)".to_string())));
    assert_eq!(check_compatibility("x.exe", "Notepad", false, false, true),
        (false, Some("Fullscreen / DirectX application".to_string())));
    assert_eq!(check_compatibility("x.exe", "Notepad", false, false, false), (true, None));
}

#[test]
fn listing_keeps_ordinary_windows() {
    let w = list_window(&raw("  Untitled - Notepad ", "Notepad", "C:\\Windows\\notepad.exe")).unwrap();
    assert_eq!(w.hwnd, 10);
    assert_eq!(w.title, "Untitled - Notepad");
    assert!(w.is_compatible);
    assert!(w.incompatibility_reason.is_none());
    assert_eq!(w.pid, 1234);
    assert_eq!(w.rect, wrect(0, 0, 800, 600));
}

#[test]
fn listing_skips_hidden_and_own_windows() {
    let mut hidden = raw("Notepad", "Notepad", "notepad.exe");
    hidden.visible = false;
    assert!(list_window(&hidden).is_none());
    let mut cloaked = raw("Notepad", "Notepad", "notepad.exe");
    cloaked.cloaked = true;
    assert!(list_window(&cloaked).is_none());
    assert!(list_window(&raw("   ", "Notepad", "notepad.exe")).is_none());
    let mut tool = raw("Palette", "Tool", "tool.exe");
    tool.ex_style = 0x80;
    assert!(list_window(&tool).is_none());
    let mut empty = raw("Notepad", "Notepad", "notepad.exe");
    empty.rect = wrect(5, 5, 5, 100);
    assert!(list_window(&empty).is_none());
    assert!(list_window(&raw("Workbench", "BetterPanelyHost", "x.exe")).is_none());
    assert!(list_window(&raw("Workbench", "Chrome", "C:\\Apps\\Better-Panely.exe")).is_none());
}

#[test]
fn listing_marks_fullscreen_and_elevated_windows() {
    let mut full = raw("Game", "GameWnd", "game.exe");
    full.style = 0x1000_0000;
    full.ex_style = 0x8;
    full.rect = wrect(0, 0, 1920, 1080);
    let w = list_window(&full).unwrap();
    assert!(!w.is_compatible);
    assert_eq!(w.incompatibility_reason.unwrap(), "Fullscreen / DirectX application");
    let mut admin = raw("Admin", "AdminWnd", "admin.exe");
    admin.elevated = true;
    assert_eq!(list_window(&admin).unwrap().incompatibility_reason.unwrap(), "Administrator process (UIPI blocked)");
}

#[test]
fn windows_sort_compatible_first_then_by_title() {
    let sorted = sort_windows(vec![
        info(1, "zeta", false, Some("x")),
        info(2, "Beta", true, None),
        info(3, "alpha", true, None),
        info(4, "Alpha", false, Some("y")),
        info(5, "beta", true, None),
    ]);
    let order: Vec<isize> = sorted.iter().map(|w| w.hwnd).collect();
    assert_eq!(order, vec![3, 2, 5, 4, 1]);
}

#[test]
fn workbench_window_info_copies_the_listing() {
    let w = to_window_info(info(9, "Mail", true, None));
    assert_eq!(w.hwnd, 9);
    assert_eq!(w.title, "Mail");
    assert_eq!(w.rect, RectInfo { left: 1, top: 2, right: 3, bottom: 4 });
    assert_eq!(find_window(&vec![info(1, "a", true, None), info(9, "b", true, None)], 9), Some(1));
    assert_eq!(find_window(&vec![info(1, "a", true, None)], 9), None);
}

#[test]
fn thumbnail_sources_are_checked() {
    assert_eq!(check_thumbnail_source(0, 5).err().unwrap(), "Source HWND is invalid");
    assert_eq!(check_thumbnail_source(5, 5).err().unwrap(), "Cannot capture the workbench window itself");
    assert!(check_thumbnail_source(6, 5).is_ok());
    let r = add_thumbnail_result("wb_panel_1".to_string(), ThumbnailSourceSize { width: 640, height: 480 });
    assert_eq!(r.panel_id, "wb_panel_1");
    assert_eq!((r.source_width, r.source_height), (640, 480));
}

#[test]
fn focused_window_capture() {
    assert_eq!(capture_candidate(Some(5), 5), None);
    assert_eq!(capture_candidate(Some(6), 5), Some(6));
    assert_eq!(capture_candidate(None, 5), None);
    let windows = vec![info(1, "a", true, None), info(2, "b", false, Some("Already a child window")), info(3, "c", false, None)];
    let chosen = choose_focused_window(1, vec![info(1, "a", true, None)]).unwrap();
    assert_eq!((chosen.hwnd, chosen.title.as_str(), chosen.is_compatible), (1, "a", true));
    assert_eq!(choose_focused_window(2, vec![info(2, "b", false, Some("Already a child window"))]).err().unwrap(),
        "Focused window is not compatible: Already a child window");
    assert_eq!(choose_focused_window(3, vec![info(3, "c", false, None)]).err().unwrap(),
        "Focused window is not compatible: Unknown reason");
    assert_eq!(choose_focused_window(4, windows).err().unwrap(), "Focused window is not eligible for capture");
}

#[test]
fn hotkey_capture_checks_the_listing() {
    let windows = vec![info(1, "a", true, None), info(2, "b", false, Some("System shell window"))];
    assert_eq!(capture_window_via_hotkey_internal(None, &windows), Ok(None));
    assert_eq!(capture_window_via_hotkey_internal(Some((1, "a".to_string())), &windows), Ok(Some((1, "a".to_string()))));
    assert_eq!(capture_window_via_hotkey_internal(Some((2, "b".to_string())), &windows),
        Err("Window is not compatible: System shell window".to_string()));
    assert_eq!(capture_window_via_hotkey_internal(Some((8, "h".to_string())), &windows), Ok(Some((8, "h".to_string()))));
}

#[test]
fn monitor_tracks_one_drag() {
    let mut m = MonitorState::new();
    assert_eq!(m.active_source(), None);
    m.drag_started(42);
    assert_eq!(m.active_source(), Some((42, false)));
    m.mark_active_source_emitted(7);
    assert_eq!(m.active_source(), Some((42, false)));
    m.entered_reported(42, true, false);
    assert_eq!(m.active_source(), Some((42, false)));
    m.entered_reported(42, true, true);
    assert_eq!(m.active_source(), Some((42, true)));
    assert_eq!(m.drag_ended(7, Some((1, 2))), None);
    assert_eq!(m.drag_ended(42, Some((3, 4))), Some(DragPositionPayload { source_hwnd: 42, x: 3, y: 4 }));
    assert_eq!(m.active_source(), None);
    m.drag_started(43);
    m.mark_active_source_emitted(43);
    m.clear_active_source(43);
    assert_eq!(m, MonitorState::new());
}

#[test]
fn monitor_polls_and_filters_events() {
    let m = MonitorState::new();
    assert!(matches!(m.poll_decision(1, false, None), PollDecision::Wait));
    assert!(matches!(m.poll_decision(1, false, Some((5, 6))), PollDecision::LookUp { source_hwnd: 1, x: 5, y: 6 }));
    match m.poll_decision(1, true, Some((5, 6))) {
        PollDecision::EmitMoved(p) => assert_eq!(p, DragPositionPayload { source_hwnd: 1, x: 5, y: 6 }),
        _ => panic!("already reported: the position is sent"),
    }
    assert!(is_window_event(5, 0, 0));
    assert!(!is_window_event(0, 0, 0));
    assert!(!is_window_event(5, -4, 0));
    let rect = WorkbenchClientRect { left: 100, top: 50, right: 900, bottom: 650 };
    assert_eq!(cursor_in_workbench(rect, 150, 70), Some((50, 20)));
    assert_eq!(cursor_in_workbench(rect, 900, 650), Some((800, 600)));
    assert_eq!(cursor_in_workbench(rect, 99, 70), None);
}

#[test]
fn entered_payload_needs_a_compatible_window() {
    let windows = vec![info(1, "Mail", true, None), info(2, "Shell", false, Some("System shell window"))];
    let p = payload_for_source(1, 10, 20, &windows).unwrap();
    assert_eq!((p.source_hwnd, p.x, p.y), (1, 10, 20));
    assert_eq!(p.title, "Mail");
    assert!(payload_for_source(2, 10, 20, &windows).is_none());
    assert!(payload_for_source(3, 10, 20, &windows).is_none());
}

#[test]
fn drag_capture_tracks_containers_and_hover() {
    let mut s = DragCaptureState::new();
    assert!(s.activate().is_ok());
    assert_eq!(s.activate().err().unwrap(), "Drag capture already active");
    s.register_container(100);
    s.register_container(100);
    s.register_container(200);
    assert_eq!(s.containers, vec![100, 200]);
    assert_eq!(s.container_at(200), Some(200));
    assert_eq!(s.container_at(300), None);
    let notice = s.drag_started(7, "Mail".to_string());
    assert_eq!((notice.hwnd, notice.title.as_str(), notice.hovered_container), (7, "Mail", None));
    let (hover, events) = s.hover_step(100, None);
    assert_eq!(hover, Some(100));
    assert_eq!(events, vec![HoverEvent::Enter(100)]);
    let (hover, events) = s.hover_step(200, Some(100));
    assert_eq!(hover, Some(200));
    assert_eq!(events, vec![HoverEvent::Leave(100), HoverEvent::Enter(200)]);
    let (hover, events) = s.hover_step(200, Some(200));
    assert_eq!(hover, Some(200));
    assert!(events.is_empty());
    assert_eq!(s.take_auto_embed(), Some((7, 200)));
    let ended = s.drag_ended(7, "Mail".to_string());
    assert_eq!(ended.hovered_container, Some(200));
    assert_eq!(s.hovered_container, None);
    assert_eq!(s.take_auto_embed(), None);
    s.unregister_container(100);
    assert_eq!(s.containers, vec![200]);
    s.deactivate();
    assert!(!s.active);
}

fn fields(id: Option<&str>, kind: Option<&str>, hwnd: Option<i64>, tool: Option<&str>) -> PanelFields {
    PanelFields {
        id: id.map(|s| s.to_string()),
        panel_type: kind.map(|s| s.to_string()),
        title: Some("  Mail ".to_string()),
        source_hwnd: hwnd,
        tool_id: tool.map(|s| s.to_string()),
        z_index: Some(3),
        width_valid: true,
        height_valid: true,
    }
}

#[test]
fn saved_fields_are_cleaned() {
    assert_eq!(string_field(&Some("  a ".to_string())), Some("a".to_string()));
    assert_eq!(string_field(&Some("   ".to_string())), None);
    assert_eq!(string_field(&None), None);
    assert_eq!(positive_isize_field(Some(5)), Some(5));
    assert_eq!(positive_isize_field(Some(0)), None);
    assert_eq!(positive_isize_field(Some(-3)), None);
    assert_eq!(z_index_field(Some(9)), 9);
    assert_eq!(z_index_field(Some(-1)), 1);
    assert_eq!(z_index_field(Some(1 << 40)), 1);
    assert_eq!(z_index_field(None), 1);
}

#[test]
fn saved_panels_are_checked() {
    let t = parse_saved_panel(&fields(Some("p1"), Some("thumbnail"), Some(77), None)).unwrap();
    assert_eq!(t.id, "p1");
    assert_eq!(t.panel_type, "thumbnail");
    assert_eq!(t.source_hwnd, Some(77));
    assert_eq!(t.tool_id, None);
    assert_eq!(t.title, "Mail");
    assert_eq!(t.z_index, 3);
    let tool = parse_saved_panel(&fields(Some("p2"), Some(" tool "), None, Some("notes"))).unwrap();
    assert_eq!(tool.panel_type, "tool");
    assert_eq!(tool.tool_id, Some("notes".to_string()));
    assert!(parse_saved_panel(&fields(Some("p3"), Some("thumbnail"), None, None)).is_none());
    assert!(parse_saved_panel(&fields(Some("p4"), Some("tool"), Some(5), None)).is_none());
    assert!(parse_saved_panel(&fields(None, Some("tool"), None, Some("notes"))).is_none());
    assert!(parse_saved_panel(&fields(Some("p5"), Some("iframe"), Some(5), Some("x"))).is_none());
    let mut untitled = fields(Some("p6"), Some("tool"), None, Some("timer"));
    untitled.title = None;
    assert_eq!(parse_saved_panel(&untitled).unwrap().title, "Untitled");
    let mut bad = fields(Some("p7"), Some("tool"), None, Some("timer"));
    bad.height_valid = false;
    assert!(parse_saved_panel(&bad).is_none());
    let all = parse_saved_panels(&vec![fields(Some("a"), Some("tool"), None, Some("notes")), bad]);
    assert_eq!(all.len(), 2);
    assert!(all[0].is_some());
    assert!(all[1].is_none());
}

#[test]
fn clean_saved_panel_reads_back_unchanged() {
    let written = PanelFields {
        id: Some("wb_panel_3".to_string()),
        panel_type: Some("tool".to_string()),
        title: Some("Notes".to_string()),
        source_hwnd: None,
        tool_id: Some("notes".to_string()),
        z_index: Some(0),
        width_valid: true,
        height_valid: true,
    };
    let read = parse_saved_panel(&written).unwrap();
    assert_eq!(read.id, "wb_panel_3");
    assert_eq!(read.panel_type, "tool");
    assert_eq!(read.title, "Notes");
    assert_eq!(read.source_hwnd, None);
    assert_eq!(read.tool_id.as_deref(), Some("notes"));
    assert_eq!(read.z_index, 0);
}

#[test]
fn compatibility_reads_the_given_lowercase_path() {
    // The UWP frame is recognised in the lower-cased path that is handed in.
    assert_eq!(compatibility("c:\\windows\\applicationframehost.exe", "Frame", false, false, false),
        (false, Some("UWP apps cannot be captured".to_string())));
    assert_eq!(compatibility("C:\\Windows\\ApplicationFrameHost.exe", "Frame", false, false, false), (true, None));
    assert_eq!(check_compatibility("C:\\Windows\\ApplicationFrameHost.exe", "Frame", false, false, false),
        (false, Some("UWP apps cannot be captured".to_string())));
}

#[test]
fn listing_with_a_given_lowercase_path() {
    let w = raw("Panel", "Chrome", "C:\\Apps\\Better-Panely.exe");
    assert!(list_window_with(&w, "c:\\apps\\better-panely.exe").is_none());
    assert!(list_window_with(&w, "C:\\Apps\\Better-Panely.exe").is_some());
    assert!(list_window(&w).is_none());
}

#[test]
fn sort_listing_uses_the_given_keys() {
    let entries = vec![
        ("b".to_string(), info(1, "zzz", true, None)),
        ("a".to_string(), info(2, "yyy", true, None)),
        ("a".to_string(), info(3, "xxx", false, Some("r"))),
        ("b".to_string(), info(4, "www", true, None)),
    ];
    let order: Vec<isize> = sort_listing(entries).iter().map(|(_, w)| w.hwnd).collect();
    assert_eq!(order, vec![2, 1, 4, 3]);
}

#[test]
fn one_entered_notice_per_drag() {
    let windows = vec![info(1, "Mail", true, None)];
    let mut m = MonitorState::new();
    m.drag_started(1);
    let mut entered = 0;
    let mut moved = 0;
    for round in 0..5 {
        let (hwnd, emitted) = m.active_source().unwrap();
        match m.poll_decision(hwnd, emitted, Some((10 + round, 20))) {
            PollDecision::Wait => panic!("the cursor is over the workbench"),
            PollDecision::EmitMoved(_) => moved += 1,
            PollDecision::LookUp { source_hwnd, x, y } => {
                let payload = payload_for_source(source_hwnd, x, y, &windows);
                let had = payload.is_some();
                if had {
                    entered += 1;
                }
                m.entered_reported(source_hwnd, had, true);
            }
        }
    }
    assert_eq!((entered, moved), (1, 4));
}

#[test]
fn clean_saved_layout_reads_back_in_order() {
    let written = vec![
        fields(Some("wb_panel_1"), Some("thumbnail"), Some(77), None),
        fields(Some("wb_panel_2"), Some("tool"), None, Some("timer")),
        fields(Some("wb_panel_3"), Some("thumbnail"), Some(78), None),
    ];
    let read: Vec<_> = parse_saved_panels(&written).into_iter().map(|r| r.unwrap()).collect();
    let ids: Vec<&str> = read.iter().map(|r| r.id.as_str()).collect();
    assert_eq!(ids, vec!["wb_panel_1", "wb_panel_2", "wb_panel_3"]);
    assert_eq!(read[0].source_hwnd, Some(77));
    assert_eq!(read[1].tool_id.as_deref(), Some("timer"));
    assert_eq!(read[2].source_hwnd, Some(78));
}
