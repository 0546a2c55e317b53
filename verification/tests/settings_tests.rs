use better_panely::locales::t;
use better_panely::settings::{
    default_capture_hotkey, default_language, default_launch_on_startup, default_minimize_to_tray,
    default_theme, normalize_capture_hotkey, normalize_language, normalize_theme, AppSettings,
    AppStateManager,
};
use better_panely::settings_flow::{
    begin_language_change, delete_status, finish_language_change, finish_run_value_update,
    registry_check, run_value_update, RunValueUpdate, SettingsEffect, SettingsNotice, SettingsStep,
    SettingsUpdate,
};
use better_panely::hotkeys::{HotkeyEffect, HotkeyOutcome, HotkeyReplacement, HotkeyStep};
use better_panely::text::{compare_text, contains, push_decimal, str_eq, trim, TextOrder};

fn settings(startup: bool, theme: &str, hotkey: &str, lang: &str) -> AppSettings {
    AppSettings {
        launch_on_startup: startup,
        minimize_to_tray: true,
        theme: theme.to_string(),
        capture_hotkey: hotkey.to_string(),
        language: lang.to_string(),
    }
}

#[test]
fn trim_removes_surrounding_white_space() {
    assert_eq!(trim("  Ctrl+Alt+P \t\n"), "Ctrl+Alt+P");
    assert_eq!(trim("\u{3000}x\u{2028}"), "x");
    assert_eq!(trim("   "), "");
    assert_eq!(trim(""), "");
    assert_eq!(trim("a b"), "a b");
}

#[test]
fn trim_twice_is_trim_once() {
    let once = trim(" \t spaced out \n");
    assert_eq!(trim(&once), once);
}

#[test]
fn contains_finds_infixes() {
    assert!(contains("C:\\Windows\\explorer.exe", "explorer"));
    assert!(contains("abc", ""));
    assert!(!contains("abc", "abcd"));
    assert!(!contains("abc", "cb"));
}

#[test]
fn compare_text_orders_by_code_point() {
    assert_eq!(compare_text("abc", "abd"), TextOrder::Less);
    assert_eq!(compare_text("abd", "abc"), TextOrder::Greater);
    assert_eq!(compare_text("ab", "abc"), TextOrder::Less);
    assert_eq!(compare_text("", ""), TextOrder::Equal);
    assert_eq!(compare_text("B", "a"), TextOrder::Less);
    assert!(str_eq("same", "same"));
    assert!(!str_eq("same", "Same"));
}

#[test]
fn push_decimal_writes_digits() {
    let mut s = "panel_".to_string();
    push_decimal(&mut s, 0);
    assert_eq!(s, "panel_0");
    let mut s = String::new();
    push_decimal(&mut s, 4294967295);
    assert_eq!(s, "4294967295");
    let mut s = "x".to_string();
    push_decimal(&mut s, 1020);
    assert_eq!(s, "x1020");
}

#[test]
fn t_translates_known_keys() {
    assert_eq!(t("menu.quit", "zh"), "退出");
    assert_eq!(t("menu.quit", "en"), "Quit");
    assert_eq!(t("tool.notes.desc", "en"), "Rich text notes with auto-save");
    assert_eq!(t("incompatibility.uwp", "zh"), "UWP 应用无法捕获");
}

#[test]
fn t_falls_back_to_english_and_to_the_key() {
    assert_eq!(t("menu.settings", "fr"), "Settings");
    assert_eq!(t("menu.settings", "zh-CN"), "Settings");
    assert_eq!(t("no.such.key", "en"), "no.such.key");
    assert_eq!(t("no.such.key", "zh"), "no.such.key");
}

#[test]
fn defaults_are_the_documented_ones() {
    assert!(!default_launch_on_startup());
    assert!(default_minimize_to_tray());
    assert_eq!(default_theme(), "dark");
    assert_eq!(default_capture_hotkey(), "Ctrl+Shift+W");
    assert_eq!(default_language(), "en");
    let d = AppSettings::default();
    assert!(!d.launch_on_startup);
    assert!(d.minimize_to_tray);
    assert_eq!(d.theme, "dark");
    assert_eq!(d.capture_hotkey, "Ctrl+Shift+W");
    assert_eq!(d.language, "en");
}

#[test]
fn language_is_normalised_to_en_or_zh() {
    assert_eq!(normalize_language("zh"), "zh");
    assert_eq!(normalize_language("zh-CN"), "zh");
    assert_eq!(normalize_language("zh_CN"), "zh");
    assert_eq!(normalize_language("chinese"), "zh");
    assert_eq!(normalize_language("en"), "en");
    assert_eq!(normalize_language("de"), "en");
    assert_eq!(normalize_language(""), "en");
}

#[test]
fn theme_is_normalised_to_dark_or_light() {
    assert_eq!(normalize_theme("light"), "light");
    assert_eq!(normalize_theme("dark"), "dark");
    assert_eq!(normalize_theme("system"), "system");
    assert_eq!(normalize_theme("Light"), "dark");
    assert_eq!(normalize_theme("solarized"), "dark");
}

#[test]
fn hotkey_is_trimmed_or_defaulted() {
    assert_eq!(normalize_capture_hotkey("  Ctrl+Alt+K  "), "Ctrl+Alt+K");
    assert_eq!(normalize_capture_hotkey("   "), "Ctrl+Shift+W");
    assert_eq!(normalize_capture_hotkey(""), "Ctrl+Shift+W");
}

#[test]
fn normalized_settings_are_a_fixed_point() {
    let n = settings(true, "blue", " Alt+Q ", "chinese").normalized();
    assert_eq!(n.theme, "dark");
    assert_eq!(n.capture_hotkey, "Alt+Q");
    assert_eq!(n.language, "zh");
    assert!(n.launch_on_startup);
    let again = n.duplicate().normalized();
    assert_eq!(again.theme, n.theme);
    assert_eq!(again.capture_hotkey, n.capture_hotkey);
    assert_eq!(again.language, n.language);
}

#[test]
fn manager_gives_back_what_was_set() {
    let mut m = AppStateManager::new("state.json".to_string());
    assert_eq!(m.get_state_path(), "state.json");
    assert_eq!(m.get_language(), "en");
    let r = m.set_settings(settings(false, "light", "Ctrl+1", "zh-CN"));
    assert_eq!(r.language, "zh");
    let got = m.get_settings();
    assert_eq!(got.theme, "light");
    assert_eq!(got.capture_hotkey, "Ctrl+1");
    assert_eq!(got.language, "zh");
    assert_eq!(m.set_language("whatever"), "en");
    assert_eq!(m.get_language(), "en");
    assert_eq!(m.get_settings().theme, "light");
}

#[test]
fn restored_settings_are_normalised() {
    let mut m = AppStateManager::new("s.json".to_string());
    m.restore_settings(settings(true, "neon", "", "zh"));
    assert_eq!(m.get_settings().theme, "dark");
    assert_eq!(m.get_settings().capture_hotkey, "Ctrl+Shift+W");
    assert_eq!(m.get_language(), "zh");
    assert!(m.get_settings().launch_on_startup);
}

fn expect_perform(step: SettingsStep) -> SettingsEffect {
    match step {
        SettingsStep::Perform(e) => e,
        SettingsStep::Finish { .. } => panic!("expected an effect"),
    }
}

fn expect_finish(step: SettingsStep) -> (Vec<SettingsNotice>, Result<AppSettings, String>) {
    match step {
        SettingsStep::Finish { notices, result } => (notices, result),
        SettingsStep::Perform(_) => panic!("expected the end"),
    }
}

#[test]
fn settings_update_applies_startup_hotkey_then_save() {
    let mut m = AppStateManager::new("s.json".to_string());
    let current = m.get_settings().duplicate();
    let mut u = SettingsUpdate::new(&current, settings(true, "dark", "Alt+Z", "zh"), true);
    match expect_perform(u.step(&mut m, Ok(()))) {
        SettingsEffect::ApplyStartup { enabled } => assert!(enabled),
        _ => panic!("startup first"),
    }
    match expect_perform(u.step(&mut m, Ok(()))) {
        SettingsEffect::ReplaceHotkey { from, to } => {
            assert_eq!(from, "Ctrl+Shift+W");
            assert_eq!(to, "Alt+Z");
        }
        _ => panic!("hotkey second"),
    }
    match expect_perform(u.step(&mut m, Ok(()))) {
        SettingsEffect::Save { settings } => assert_eq!(settings.language, "zh"),
        _ => panic!("save last"),
    }
    assert_eq!(m.get_language(), "zh");
    let (notices, result) = expect_finish(u.step(&mut m, Ok(())));
    assert_eq!(result.unwrap().capture_hotkey, "Alt+Z");
    assert_eq!(notices.len(), 3);
    assert!(matches!(&notices[0], SettingsNotice::RefreshTrayLanguage { language } if language == "zh"));
    assert!(matches!(&notices[1], SettingsNotice::EmitLanguageChanged { language } if language == "zh"));
    assert!(matches!(&notices[2], SettingsNotice::EmitSettingsChanged { .. }));
}

#[test]
fn settings_update_startup_failure_stops_everything() {
    let mut m = AppStateManager::new("s.json".to_string());
    let current = m.get_settings().duplicate();
    let mut u = SettingsUpdate::new(&current, settings(true, "dark", "Alt+Z", "en"), true);
    expect_perform(u.step(&mut m, Ok(())));
    let (notices, result) = expect_finish(u.step(&mut m, Err("registry denied".to_string())));
    assert!(notices.is_empty());
    assert_eq!(result.err().unwrap(), "registry denied");
    assert_eq!(m.get_settings().capture_hotkey, "Ctrl+Shift+W");
}

#[test]
fn settings_update_hotkey_failure_reverts_startup() {
    let mut m = AppStateManager::new("s.json".to_string());
    let current = m.get_settings().duplicate();
    let mut u = SettingsUpdate::new(&current, settings(true, "dark", "Alt+Z", "en"), true);
    expect_perform(u.step(&mut m, Ok(())));
    expect_perform(u.step(&mut m, Ok(())));
    let (notices, result) = expect_finish(u.step(&mut m, Err("taken".to_string())));
    assert_eq!(result.err().unwrap(), "taken");
    assert_eq!(notices.len(), 1);
    assert!(matches!(notices[0], SettingsNotice::RevertStartup { enabled: false }));
    assert!(!m.get_settings().launch_on_startup);
}

#[test]
fn settings_update_save_failure_rolls_back() {
    let mut m = AppStateManager::new("s.json".to_string());
    let current = m.get_settings().duplicate();
    let mut u = SettingsUpdate::new(&current, settings(true, "light", "Alt+Z", "en"), true);
    expect_perform(u.step(&mut m, Ok(())));
    expect_perform(u.step(&mut m, Ok(())));
    expect_perform(u.step(&mut m, Ok(())));
    assert_eq!(m.get_settings().theme, "light");
    let (notices, result) = expect_finish(u.step(&mut m, Err("disk full".to_string())));
    assert_eq!(result.err().unwrap(), "disk full");
    assert_eq!(notices.len(), 2);
    assert!(matches!(&notices[0], SettingsNotice::RevertHotkey { from, to } if from == "Alt+Z" && to == "Ctrl+Shift+W"));
    assert!(matches!(notices[1], SettingsNotice::RevertStartup { enabled: false }));
    assert_eq!(m.get_settings().theme, "dark");
    assert_eq!(m.get_settings().capture_hotkey, "Ctrl+Shift+W");
}

#[test]
fn settings_update_without_hotkey_support_skips_the_hotkey() {
    let mut m = AppStateManager::new("s.json".to_string());
    let current = m.get_settings().duplicate();
    let mut u = SettingsUpdate::new(&current, settings(false, "dark", "Alt+Z", "en"), false);
    match expect_perform(u.step(&mut m, Ok(()))) {
        SettingsEffect::Save { settings } => assert_eq!(settings.capture_hotkey, "Alt+Z"),
        _ => panic!("only the save is left"),
    }
    let (notices, result) = expect_finish(u.step(&mut m, Ok(())));
    assert!(result.is_ok());
    assert_eq!(notices.len(), 1);
}

#[test]
fn language_change_announces_after_save() {
    let mut m = AppStateManager::new("s.json".to_string());
    let (lang, saved) = begin_language_change(&mut m, "zh_CN");
    assert_eq!(lang, "zh");
    assert_eq!(saved.language, "zh");
    let (notices, result) = finish_language_change(lang.clone(), &saved, Ok(()));
    assert_eq!(result.unwrap(), "zh");
    assert_eq!(notices.len(), 3);
    let (notices, result) = finish_language_change(lang, &saved, Err("io".to_string()));
    assert!(notices.is_empty());
    assert_eq!(result.err().unwrap(), "io");
}

#[test]
fn startup_registry_value_is_quoted() {
    match run_value_update(true, "C:\\Apps\\BetterPanely.exe") {
        RunValueUpdate::Write { command } => assert_eq!(command, "\"C:\\Apps\\BetterPanely.exe\""),
        RunValueUpdate::Delete => panic!("expected a write"),
    }
    assert!(matches!(run_value_update(false, "x"), RunValueUpdate::Delete));
}

#[test]
fn registry_errors_carry_their_context() {
    assert_eq!(delete_status(2), 0);
    assert_eq!(delete_status(5), 5);
    assert_eq!(delete_status(0), 0);
    assert!(registry_check(0, "ctx").is_ok());
    let f = registry_check(5, "ctx").err().unwrap();
    assert_eq!(f.code, 5);
    assert_eq!(f.context, "ctx");
    let f = finish_run_value_update(5, 6).err().unwrap();
    assert_eq!(f.code, 5);
    assert_eq!(f.context, "Failed to update Windows startup registry value");
    let f = finish_run_value_update(0, 6).err().unwrap();
    assert_eq!(f.code, 6);
    assert_eq!(f.context, "Failed to close Windows startup registry key");
    assert!(finish_run_value_update(0, 0).is_ok());
}

fn perform(step: HotkeyStep) -> HotkeyEffect {
    match step {
        HotkeyStep::Perform(e) => e,
        HotkeyStep::Finish(_) => panic!("expected an effect"),
    }
}

fn finish(step: HotkeyStep) -> Result<(), String> {
    match step {
        HotkeyStep::Finish(r) => r,
        HotkeyStep::Perform(_) => panic!("expected the end"),
    }
}

#[test]
fn hotkey_unchanged_and_registered_does_nothing() {
    let mut h = HotkeyReplacement::new("Ctrl+Shift+W", "Ctrl+Shift+W");
    assert!(matches!(perform(h.step(HotkeyOutcome::Registered(false))), HotkeyEffect::IsRegistered { ref shortcut } if shortcut == "Ctrl+Shift+W"));
    assert!(finish(h.step(HotkeyOutcome::Registered(true))).is_ok());
}

#[test]
fn hotkey_unchanged_but_missing_is_registered() {
    let mut h = HotkeyReplacement::new("A", "A");
    perform(h.step(HotkeyOutcome::Registered(false)));
    assert!(matches!(perform(h.step(HotkeyOutcome::Registered(false))), HotkeyEffect::Register { ref shortcut } if shortcut == "A"));
    assert_eq!(finish(h.step(HotkeyOutcome::Completed(Err("busy".to_string())))), Err("busy".to_string()));
}

#[test]
fn hotkey_change_moves_the_registration() {
    let mut h = HotkeyReplacement::new("A", "B");
    assert!(matches!(perform(h.step(HotkeyOutcome::Registered(false))), HotkeyEffect::IsRegistered { ref shortcut } if shortcut == "A"));
    assert!(matches!(perform(h.step(HotkeyOutcome::Registered(true))), HotkeyEffect::Unregister { ref shortcut } if shortcut == "A"));
    assert!(matches!(perform(h.step(HotkeyOutcome::Completed(Ok(())))), HotkeyEffect::Register { ref shortcut } if shortcut == "B"));
    assert!(finish(h.step(HotkeyOutcome::Completed(Ok(())))).is_ok());
}

#[test]
fn hotkey_change_failure_restores_the_old_one() {
    let mut h = HotkeyReplacement::new("A", "B");
    perform(h.step(HotkeyOutcome::Registered(false)));
    perform(h.step(HotkeyOutcome::Registered(true)));
    perform(h.step(HotkeyOutcome::Completed(Ok(()))));
    assert!(matches!(perform(h.step(HotkeyOutcome::Completed(Err("in use".to_string())))), HotkeyEffect::Register { ref shortcut } if shortcut == "A"));
    assert_eq!(finish(h.step(HotkeyOutcome::Completed(Ok(())))), Err("in use".to_string()));
}

#[test]
fn hotkey_change_failure_without_old_registration() {
    let mut h = HotkeyReplacement::new("A", "B");
    perform(h.step(HotkeyOutcome::Registered(false)));
    assert!(matches!(perform(h.step(HotkeyOutcome::Registered(false))), HotkeyEffect::Register { ref shortcut } if shortcut == "B"));
    assert_eq!(finish(h.step(HotkeyOutcome::Completed(Err("bad".to_string())))), Err("bad".to_string()));
}

#[test]
fn hotkey_unregister_failure_ends_the_change() {
    let mut h = HotkeyReplacement::new("A", "B");
    perform(h.step(HotkeyOutcome::Registered(false)));
    perform(h.step(HotkeyOutcome::Registered(true)));
    assert_eq!(finish(h.step(HotkeyOutcome::Completed(Err("no".to_string())))), Err("no".to_string()));
}

#[test]
fn text_order_is_a_strict_total_order() {
    let words = ["", "a", "ab", "b", "B", "中文", "abc"];
    for x in words {
        assert_eq!(compare_text(x, x), TextOrder::Equal);
        for y in words {
            let xy = compare_text(x, y);
            let yx = compare_text(y, x);
            match xy {
                TextOrder::Less => assert_eq!(yx, TextOrder::Greater),
                TextOrder::Greater => assert_eq!(yx, TextOrder::Less),
                TextOrder::Equal => assert_eq!(x, y),
            }
        }
    }
}

#[test]
fn decimal_notation_is_injective() {
    let mut seen = std::collections::HashSet::new();
    for n in [0u32, 1, 9, 10, 11, 99, 100, 101, 1000, 4294967295] {
        let mut s = String::new();
        push_decimal(&mut s, n);
        assert_eq!(s, n.to_string());
        assert!(seen.insert(s));
    }
}

#[test]
fn both_tables_translate_the_same_keys() {
    let keys = [
        "menu.new_panel", "menu.calculator", "menu.notes", "menu.timer", "menu.weather", "menu.show_main",
        "menu.settings", "menu.language", "menu.lang_en", "menu.lang_zh", "menu.quit", "menu.separator",
        "tray.tooltip", "tool.calculator", "tool.calculator.desc", "tool.notes", "tool.notes.desc", "tool.timer",
        "tool.timer.desc", "tool.weather", "tool.weather.desc", "incompatibility.uwp", "incompatibility.shell",
        "incompatibility.self", "incompatibility.child", "incompatibility.elevated", "incompatibility.fullscreen",
        "unknown.key",
    ];
    let shared = ["menu.lang_en", "menu.lang_zh", "menu.separator", "tray.tooltip", "unknown.key"];
    for key in keys {
        let en = t(key, "en");
        let zh = t(key, "zh");
        assert_eq!(en == key, zh == key, "{}", key);
        assert_eq!(en == zh, shared.contains(&key), "{}", key);
    }
}
