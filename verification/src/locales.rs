//! Localised labels for the tray menu, the built-in tools and the
//! window-compatibility messages, in English and Chinese.

use vstd::prelude::*;

use crate::text::str_eq;

verus! {

/// The English label of `key`; an unknown key stands for itself.
pub open spec fn english_text(key: Seq<char>) -> Seq<char> {
    if key == "menu.new_panel"@ {
        "New Panel"@
    } else if key == "menu.calculator"@ {
        "Calculator"@
    } else if key == "menu.notes"@ {
        "Notes"@
    } else if key == "menu.timer"@ {
        "Timer"@
    } else if key == "menu.weather"@ {
        "Weather"@
    } else if key == "menu.show_main"@ {
        "Show Main Window"@
    } else if key == "menu.settings"@ {
        "Settings"@
    } else if key == "menu.language"@ {
        "Language"@
    } else if key == "menu.lang_en"@ {
        "English"@
    } else if key == "menu.lang_zh"@ {
        "中文"@
    } else if key == "menu.quit"@ {
        "Quit"@
    } else if key == "menu.separator"@ {
        "─────────"@
    } else if key == "tray.tooltip"@ {
        "BetterPanely"@
    } else if key == "tool.calculator"@ {
        "Calculator"@
    } else if key == "tool.calculator.desc"@ {
        "Standard and scientific calculator"@
    } else if key == "tool.notes"@ {
        "Notes"@
    } else if key == "tool.notes.desc"@ {
        "Rich text notes with auto-save"@
    } else if key == "tool.timer"@ {
        "Timer"@
    } else if key == "tool.timer.desc"@ {
        "Countdown timer and stopwatch"@
    } else if key == "tool.weather"@ {
        "Weather"@
    } else if key == "tool.weather.desc"@ {
        "Current weather information"@
    } else if key == "incompatibility.uwp"@ {
        "UWP apps cannot be captured"@
    } else if key == "incompatibility.shell"@ {
        "System shell window"@
    } else if key == "incompatibility.self"@ {
        "BetterPanely window"@
    } else if key == "incompatibility.child"@ {
        "Already a child window"@
    } else if key == "incompatibility.elevated"@ {
        "Administrator process (UIPI blocked)"@
    } else if key == "incompatibility.fullscreen"@ {
        "Fullscreen / DirectX application"@
    } else {
        key
    }
}

/// The Chinese label of `key`; an unknown key stands for itself.
pub open spec fn chinese_text(key: Seq<char>) -> Seq<char> {
    if key == "menu.new_panel"@ {
        "新建面板"@
    } else if key == "menu.calculator"@ {
        "计算器"@
    } else if key == "menu.notes"@ {
        "便签"@
    } else if key == "menu.timer"@ {
        "计时器"@
    } else if key == "menu.weather"@ {
        "天气"@
    } else if key == "menu.show_main"@ {
        "显示主窗口"@
    } else if key == "menu.settings"@ {
        "设置"@
    } else if key == "menu.language"@ {
        "语言"@
    } else if key == "menu.lang_en"@ {
        "English"@
    } else if key == "menu.lang_zh"@ {
        "中文"@
    } else if key == "menu.quit"@ {
        "退出"@
    } else if key == "menu.separator"@ {
        "─────────"@
    } else if key == "tray.tooltip"@ {
        "BetterPanely"@
    } else if key == "tool.calculator"@ {
        "计算器"@
    } else if key == "tool.calculator.desc"@ {
        "标准和科学计算器"@
    } else if key == "tool.notes"@ {
        "便签"@
    } else if key == "tool.notes.desc"@ {
        "富文本便签，自动保存"@
    } else if key == "tool.timer"@ {
        "计时器"@
    } else if key == "tool.timer.desc"@ {
        "倒计时和秒表"@
    } else if key == "tool.weather"@ {
        "天气"@
    } else if key == "tool.weather.desc"@ {
        "当前天气信息"@
    } else if key == "incompatibility.uwp"@ {
        "UWP 应用无法捕获"@
    } else if key == "incompatibility.shell"@ {
        "系统外壳窗口"@
    } else if key == "incompatibility.self"@ {
        "BetterPanely 自身窗口"@
    } else if key == "incompatibility.child"@ {
        "已是子窗口"@
    } else if key == "incompatibility.elevated"@ {
        "管理员进程 (UIPI 阻止)"@
    } else if key == "incompatibility.fullscreen"@ {
        "全屏/DirectX 应用"@
    } else {
        key
    }
}

/// The label of `key` in language `lang`: Chinese for `"zh"`, English for
/// every other language code.
pub open spec fn localized(key: Seq<char>, lang: Seq<char>) -> Seq<char> {
    if lang == "zh"@ {
        chinese_text(key)
    } else {
        english_text(key)
    }
}

/// Gets the localised string for `key` in `lang`, falling back to English for
/// unknown languages and to the key itself for unknown keys.
pub fn t<'a>(key: &'a str, lang: &str) -> (r: &'a str)
    ensures
        r@ == localized(key@, lang@),
{
    if str_eq(lang, "zh") {
        zh(key)
    } else {
        en(key)
    }
}

/// The English label of `key`.
fn en<'a>(key: &'a str) -> (r: &'a str)
    ensures
        r@ == english_text(key@),
{
    if str_eq(key, "menu.new_panel") {
        "New Panel"
    } else if str_eq(key, "menu.calculator") {
        "Calculator"
    } else if str_eq(key, "menu.notes") {
        "Notes"
    } else if str_eq(key, "menu.timer") {
        "Timer"
    } else if str_eq(key, "menu.weather") {
        "Weather"
    } else if str_eq(key, "menu.show_main") {
        "Show Main Window"
    } else if str_eq(key, "menu.settings") {
        "Settings"
    } else if str_eq(key, "menu.language") {
        "Language"
    } else if str_eq(key, "menu.lang_en") {
        "English"
    } else if str_eq(key, "menu.lang_zh") {
        "中文"
    } else if str_eq(key, "menu.quit") {
        "Quit"
    } else if str_eq(key, "menu.separator") {
        "─────────"
    } else if str_eq(key, "tray.tooltip") {
        "BetterPanely"
    } else if str_eq(key, "tool.calculator") {
        "Calculator"
    } else if str_eq(key, "tool.calculator.desc") {
        "Standard and scientific calculator"
    } else if str_eq(key, "tool.notes") {
        "Notes"
    } else if str_eq(key, "tool.notes.desc") {
        "Rich text notes with auto-save"
    } else if str_eq(key, "tool.timer") {
        "Timer"
    } else if str_eq(key, "tool.timer.desc") {
        "Countdown timer and stopwatch"
    } else if str_eq(key, "tool.weather") {
        "Weather"
    } else if str_eq(key, "tool.weather.desc") {
        "Current weather information"
    } else if str_eq(key, "incompatibility.uwp") {
        "UWP apps cannot be captured"
    } else if str_eq(key, "incompatibility.shell") {
        "System shell window"
    } else if str_eq(key, "incompatibility.self") {
        "BetterPanely window"
    } else if str_eq(key, "incompatibility.child") {
        "Already a child window"
    } else if str_eq(key, "incompatibility.elevated") {
        "Administrator process (UIPI blocked)"
    } else if str_eq(key, "incompatibility.fullscreen") {
        "Fullscreen / DirectX application"
    } else {
        key
    }
}

/// The Chinese label of `key`.
fn zh<'a>(key: &'a str) -> (r: &'a str)
    ensures
        r@ == chinese_text(key@),
{
    if str_eq(key, "menu.new_panel") {
        "新建面板"
    } else if str_eq(key, "menu.calculator") {
        "计算器"
    } else if str_eq(key, "menu.notes") {
        "便签"
    } else if str_eq(key, "menu.timer") {
        "计时器"
    } else if str_eq(key, "menu.weather") {
        "天气"
    } else if str_eq(key, "menu.show_main") {
        "显示主窗口"
    } else if str_eq(key, "menu.settings") {
        "设置"
    } else if str_eq(key, "menu.language") {
        "语言"
    } else if str_eq(key, "menu.lang_en") {
        "English"
    } else if str_eq(key, "menu.lang_zh") {
        "中文"
    } else if str_eq(key, "menu.quit") {
        "退出"
    } else if str_eq(key, "menu.separator") {
        "─────────"
    } else if str_eq(key, "tray.tooltip") {
        "BetterPanely"
    } else if str_eq(key, "tool.calculator") {
        "计算器"
    } else if str_eq(key, "tool.calculator.desc") {
        "标准和科学计算器"
    } else if str_eq(key, "tool.notes") {
        "便签"
    } else if str_eq(key, "tool.notes.desc") {
        "富文本便签，自动保存"
    } else if str_eq(key, "tool.timer") {
        "计时器"
    } else if str_eq(key, "tool.timer.desc") {
        "倒计时和秒表"
    } else if str_eq(key, "tool.weather") {
        "天气"
    } else if str_eq(key, "tool.weather.desc") {
        "当前天气信息"
    } else if str_eq(key, "incompatibility.uwp") {
        "UWP 应用无法捕获"
    } else if str_eq(key, "incompatibility.shell") {
        "系统外壳窗口"
    } else if str_eq(key, "incompatibility.self") {
        "BetterPanely 自身窗口"
    } else if str_eq(key, "incompatibility.child") {
        "已是子窗口"
    } else if str_eq(key, "incompatibility.elevated") {
        "管理员进程 (UIPI 阻止)"
    } else if str_eq(key, "incompatibility.fullscreen") {
        "全屏/DirectX 应用"
    } else {
        key
    }
}

/// Whether both tables give `key` the same label: the language names, the
/// separator and the tooltip, and every key that neither table translates.
pub open spec fn same_in_both(key: Seq<char>) -> bool {
    key == "menu.lang_en"@ || key == "menu.lang_zh"@ || key == "menu.separator"@ || key == "tray.tooltip"@ || english_text(key) == key
}

/// The English and Chinese tables translate the same keys, and they differ on
/// every translated key but the language names, the separator and the tooltip.
pub proof fn lemma_tables_translate_same_keys(key: Seq<char>)
    ensures
        (chinese_text(key) == key) == (english_text(key) == key),
        (chinese_text(key) == english_text(key)) == same_in_both(key),
{
    reveal_strlit("menu.lang_en");
    reveal_strlit("menu.lang_zh");
    reveal_strlit("menu.separator");
    reveal_strlit("tray.tooltip");
    if key == "menu.new_panel"@ {
        reveal_strlit("menu.new_panel");
        assert("menu.new_panel"@.len() != "menu.lang_en"@.len());
        assert("menu.new_panel"@.len() != "menu.lang_zh"@.len());
        assert("menu.new_panel"@[5] != "menu.separator"@[5]);
        assert("menu.new_panel"@.len() != "tray.tooltip"@.len());
        reveal_strlit("New Panel");
        reveal_strlit("新建面板");
        assert(english_text(key) == "New Panel"@);
        assert(chinese_text(key) == "新建面板"@);
        assert("New Panel"@.len() != "menu.new_panel"@.len());
        assert("新建面板"@.len() != "menu.new_panel"@.len());
        assert("新建面板"@.len() != "New Panel"@.len());
    } else if key == "menu.calculator"@ {
        reveal_strlit("menu.calculator");
        assert("menu.calculator"@.len() != "menu.lang_en"@.len());
        assert("menu.calculator"@.len() != "menu.lang_zh"@.len());
        assert("menu.calculator"@.len() != "menu.separator"@.len());
        assert("menu.calculator"@.len() != "tray.tooltip"@.len());
        reveal_strlit("Calculator");
        reveal_strlit("计算器");
        assert(english_text(key) == "Calculator"@);
        assert(chinese_text(key) == "计算器"@);
        assert("Calculator"@.len() != "menu.calculator"@.len());
        assert("计算器"@.len() != "menu.calculator"@.len());
        assert("计算器"@.len() != "Calculator"@.len());
    } else if key == "menu.notes"@ {
        reveal_strlit("menu.notes");
        assert("menu.notes"@.len() != "menu.lang_en"@.len());
        assert("menu.notes"@.len() != "menu.lang_zh"@.len());
        assert("menu.notes"@.len() != "menu.separator"@.len());
        assert("menu.notes"@.len() != "tray.tooltip"@.len());
        reveal_strlit("Notes");
        reveal_strlit("便签");
        assert(english_text(key) == "Notes"@);
        assert(chinese_text(key) == "便签"@);
        assert("Notes"@.len() != "menu.notes"@.len());
        assert("便签"@.len() != "menu.notes"@.len());
        assert("便签"@.len() != "Notes"@.len());
    } else if key == "menu.timer"@ {
        reveal_strlit("menu.timer");
        assert("menu.timer"@.len() != "menu.lang_en"@.len());
        assert("menu.timer"@.len() != "menu.lang_zh"@.len());
        assert("menu.timer"@.len() != "menu.separator"@.len());
        assert("menu.timer"@.len() != "tray.tooltip"@.len());
        reveal_strlit("Timer");
        reveal_strlit("计时器");
        assert(english_text(key) == "Timer"@);
        assert(chinese_text(key) == "计时器"@);
        assert("Timer"@.len() != "menu.timer"@.len());
        assert("计时器"@.len() != "menu.timer"@.len());
        assert("计时器"@.len() != "Timer"@.len());
    } else if key == "menu.weather"@ {
        reveal_strlit("menu.weather");
        assert("menu.weather"@[5] != "menu.lang_en"@[5]);
        assert("menu.weather"@[5] != "menu.lang_zh"@[5]);
        assert("menu.weather"@.len() != "menu.separator"@.len());
        assert("menu.weather"@[0] != "tray.tooltip"@[0]);
        reveal_strlit("Weather");
        reveal_strlit("天气");
        assert(english_text(key) == "Weather"@);
        assert(chinese_text(key) == "天气"@);
        assert("Weather"@.len() != "menu.weather"@.len());
        assert("天气"@.len() != "menu.weather"@.len());
        assert("天气"@.len() != "Weather"@.len());
    } else if key == "menu.show_main"@ {
        reveal_strlit("menu.show_main");
        assert("menu.show_main"@.len() != "menu.lang_en"@.len());
        assert("menu.show_main"@.len() != "menu.lang_zh"@.len());
        assert("menu.show_main"@[6] != "menu.separator"@[6]);
        assert("menu.show_main"@.len() != "tray.tooltip"@.len());
        reveal_strlit("Show Main Window");
        reveal_strlit("显示主窗口");
        assert(english_text(key) == "Show Main Window"@);
        assert(chinese_text(key) == "显示主窗口"@);
        assert("Show Main Window"@.len() != "menu.show_main"@.len());
        assert("显示主窗口"@.len() != "menu.show_main"@.len());
        assert("显示主窗口"@.len() != "Show Main Window"@.len());
    } else if key == "menu.settings"@ {
        reveal_strlit("menu.settings");
        assert("menu.settings"@.len() != "menu.lang_en"@.len());
        assert("menu.settings"@.len() != "menu.lang_zh"@.len());
        assert("menu.settings"@.len() != "menu.separator"@.len());
        assert("menu.settings"@.len() != "tray.tooltip"@.len());
        reveal_strlit("Settings");
        reveal_strlit("设置");
        assert(english_text(key) == "Settings"@);
        assert(chinese_text(key) == "设置"@);
        assert("Settings"@.len() != "menu.settings"@.len());
        assert("设置"@.len() != "menu.settings"@.len());
        assert("设置"@.len() != "Settings"@.len());
    } else if key == "menu.language"@ {
        reveal_strlit("menu.language");
        assert("menu.language"@.len() != "menu.lang_en"@.len());
        assert("menu.language"@.len() != "menu.lang_zh"@.len());
        assert("menu.language"@.len() != "menu.separator"@.len());
        assert("menu.language"@.len() != "tray.tooltip"@.len());
        reveal_strlit("Language");
        reveal_strlit("语言");
        assert(english_text(key) == "Language"@);
        assert(chinese_text(key) == "语言"@);
        assert("Language"@.len() != "menu.language"@.len());
        assert("语言"@.len() != "menu.language"@.len());
        assert("语言"@.len() != "Language"@.len());
    } else if key == "menu.lang_en"@ {
        reveal_strlit("menu.lang_en");
        reveal_strlit("English");
        assert(english_text(key) == "English"@);
        assert(chinese_text(key) == "English"@);
        assert("English"@.len() != "menu.lang_en"@.len());
    } else if key == "menu.lang_zh"@ {
        reveal_strlit("menu.lang_zh");
        reveal_strlit("中文");
        assert(english_text(key) == "中文"@);
        assert(chinese_text(key) == "中文"@);
        assert("中文"@.len() != "menu.lang_zh"@.len());
    } else if key == "menu.quit"@ {
        reveal_strlit("menu.quit");
        assert("menu.quit"@.len() != "menu.lang_en"@.len());
        assert("menu.quit"@.len() != "menu.lang_zh"@.len());
        assert("menu.quit"@.len() != "menu.separator"@.len());
        assert("menu.quit"@.len() != "tray.tooltip"@.len());
        reveal_strlit("Quit");
        reveal_strlit("退出");
        assert(english_text(key) == "Quit"@);
        assert(chinese_text(key) == "退出"@);
        assert("Quit"@.len() != "menu.quit"@.len());
        assert("退出"@.len() != "menu.quit"@.len());
        assert("退出"@.len() != "Quit"@.len());
    } else if key == "menu.separator"@ {
        reveal_strlit("menu.separator");
        reveal_strlit("─────────");
        assert(english_text(key) == "─────────"@);
        assert(chinese_text(key) == "─────────"@);
        assert("─────────"@.len() != "menu.separator"@.len());
    } else if key == "tray.tooltip"@ {
        reveal_strlit("tray.tooltip");
        reveal_strlit("BetterPanely");
        assert(english_text(key) == "BetterPanely"@);
        assert(chinese_text(key) == "BetterPanely"@);
        assert("BetterPanely"@[0] != "tray.tooltip"@[0]);
    } else if key == "tool.calculator"@ {
        reveal_strlit("tool.calculator");
        assert("tool.calculator"@.len() != "menu.lang_en"@.len());
        assert("tool.calculator"@.len() != "menu.lang_zh"@.len());
        assert("tool.calculator"@.len() != "menu.separator"@.len());
        assert("tool.calculator"@.len() != "tray.tooltip"@.len());
        reveal_strlit("Calculator");
        reveal_strlit("计算器");
        assert(english_text(key) == "Calculator"@);
        assert(chinese_text(key) == "计算器"@);
        assert("Calculator"@.len() != "tool.calculator"@.len());
        assert("计算器"@.len() != "tool.calculator"@.len());
        assert("计算器"@.len() != "Calculator"@.len());
    } else if key == "tool.calculator.desc"@ {
        reveal_strlit("tool.calculator.desc");
        assert("tool.calculator.desc"@.len() != "menu.lang_en"@.len());
        assert("tool.calculator.desc"@.len() != "menu.lang_zh"@.len());
        assert("tool.calculator.desc"@.len() != "menu.separator"@.len());
        assert("tool.calculator.desc"@.len() != "tray.tooltip"@.len());
        reveal_strlit("Standard and scientific calculator");
        reveal_strlit("标准和科学计算器");
        assert(english_text(key) == "Standard and scientific calculator"@);
        assert(chinese_text(key) == "标准和科学计算器"@);
        assert("Standard and scientific calculator"@.len() != "tool.calculator.desc"@.len());
        assert("标准和科学计算器"@.len() != "tool.calculator.desc"@.len());
        assert("标准和科学计算器"@.len() != "Standard and scientific calculator"@.len());
    } else if key == "tool.notes"@ {
        reveal_strlit("tool.notes");
        assert("tool.notes"@.len() != "menu.lang_en"@.len());
        assert("tool.notes"@.len() != "menu.lang_zh"@.len());
        assert("tool.notes"@.len() != "menu.separator"@.len());
        assert("tool.notes"@.len() != "tray.tooltip"@.len());
        reveal_strlit("Notes");
        reveal_strlit("便签");
        assert(english_text(key) == "Notes"@);
        assert(chinese_text(key) == "便签"@);
        assert("Notes"@.len() != "tool.notes"@.len());
        assert("便签"@.len() != "tool.notes"@.len());
        assert("便签"@.len() != "Notes"@.len());
    } else if key == "tool.notes.desc"@ {
        reveal_strlit("tool.notes.desc");
        assert("tool.notes.desc"@.len() != "menu.lang_en"@.len());
        assert("tool.notes.desc"@.len() != "menu.lang_zh"@.len());
        assert("tool.notes.desc"@.len() != "menu.separator"@.len());
        assert("tool.notes.desc"@.len() != "tray.tooltip"@.len());
        reveal_strlit("Rich text notes with auto-save");
        reveal_strlit("富文本便签，自动保存");
        assert(english_text(key) == "Rich text notes with auto-save"@);
        assert(chinese_text(key) == "富文本便签，自动保存"@);
        assert("Rich text notes with auto-save"@.len() != "tool.notes.desc"@.len());
        assert("富文本便签，自动保存"@.len() != "tool.notes.desc"@.len());
        assert("富文本便签，自动保存"@.len() != "Rich text notes with auto-save"@.len());
    } else if key == "tool.timer"@ {
        reveal_strlit("tool.timer");
        assert("tool.timer"@.len() != "menu.lang_en"@.len());
        assert("tool.timer"@.len() != "menu.lang_zh"@.len());
        assert("tool.timer"@.len() != "menu.separator"@.len());
        assert("tool.timer"@.len() != "tray.tooltip"@.len());
        reveal_strlit("Timer");
        reveal_strlit("计时器");
        assert(english_text(key) == "Timer"@);
        assert(chinese_text(key) == "计时器"@);
        assert("Timer"@.len() != "tool.timer"@.len());
        assert("计时器"@.len() != "tool.timer"@.len());
        assert("计时器"@.len() != "Timer"@.len());
    } else if key == "tool.timer.desc"@ {
        reveal_strlit("tool.timer.desc");
        assert("tool.timer.desc"@.len() != "menu.lang_en"@.len());
        assert("tool.timer.desc"@.len() != "menu.lang_zh"@.len());
        assert("tool.timer.desc"@.len() != "menu.separator"@.len());
        assert("tool.timer.desc"@.len() != "tray.tooltip"@.len());
        reveal_strlit("Countdown timer and stopwatch");
        reveal_strlit("倒计时和秒表");
        assert(english_text(key) == "Countdown timer and stopwatch"@);
        assert(chinese_text(key) == "倒计时和秒表"@);
        assert("Countdown timer and stopwatch"@.len() != "tool.timer.desc"@.len());
        assert("倒计时和秒表"@.len() != "tool.timer.desc"@.len());
        assert("倒计时和秒表"@.len() != "Countdown timer and stopwatch"@.len());
    } else if key == "tool.weather"@ {
        reveal_strlit("tool.weather");
        assert("tool.weather"@[0] != "menu.lang_en"@[0]);
        assert("tool.weather"@[0] != "menu.lang_zh"@[0]);
        assert("tool.weather"@.len() != "menu.separator"@.len());
        assert("tool.weather"@[1] != "tray.tooltip"@[1]);
        reveal_strlit("Weather");
        reveal_strlit("天气");
        assert(english_text(key) == "Weather"@);
        assert(chinese_text(key) == "天气"@);
        assert("Weather"@.len() != "tool.weather"@.len());
        assert("天气"@.len() != "tool.weather"@.len());
        assert("天气"@.len() != "Weather"@.len());
    } else if key == "tool.weather.desc"@ {
        reveal_strlit("tool.weather.desc");
        assert("tool.weather.desc"@.len() != "menu.lang_en"@.len());
        assert("tool.weather.desc"@.len() != "menu.lang_zh"@.len());
        assert("tool.weather.desc"@.len() != "menu.separator"@.len());
        assert("tool.weather.desc"@.len() != "tray.tooltip"@.len());
        reveal_strlit("Current weather information");
        reveal_strlit("当前天气信息");
        assert(english_text(key) == "Current weather information"@);
        assert(chinese_text(key) == "当前天气信息"@);
        assert("Current weather information"@.len() != "tool.weather.desc"@.len());
        assert("当前天气信息"@.len() != "tool.weather.desc"@.len());
        assert("当前天气信息"@.len() != "Current weather information"@.len());
    } else if key == "incompatibility.uwp"@ {
        reveal_strlit("incompatibility.uwp");
        assert("incompatibility.uwp"@.len() != "menu.lang_en"@.len());
        assert("incompatibility.uwp"@.len() != "menu.lang_zh"@.len());
        assert("incompatibility.uwp"@.len() != "menu.separator"@.len());
        assert("incompatibility.uwp"@.len() != "tray.tooltip"@.len());
        reveal_strlit("UWP apps cannot be captured");
        reveal_strlit("UWP 应用无法捕获");
        assert(english_text(key) == "UWP apps cannot be captured"@);
        assert(chinese_text(key) == "UWP 应用无法捕获"@);
        assert("UWP apps cannot be captured"@.len() != "incompatibility.uwp"@.len());
        assert("UWP 应用无法捕获"@.len() != "incompatibility.uwp"@.len());
        assert("UWP 应用无法捕获"@.len() != "UWP apps cannot be captured"@.len());
    } else if key == "incompatibility.shell"@ {
        reveal_strlit("incompatibility.shell");
        assert("incompatibility.shell"@.len() != "menu.lang_en"@.len());
        assert("incompatibility.shell"@.len() != "menu.lang_zh"@.len());
        assert("incompatibility.shell"@.len() != "menu.separator"@.len());
        assert("incompatibility.shell"@.len() != "tray.tooltip"@.len());
        reveal_strlit("System shell window");
        reveal_strlit("系统外壳窗口");
        assert(english_text(key) == "System shell window"@);
        assert(chinese_text(key) == "系统外壳窗口"@);
        assert("System shell window"@.len() != "incompatibility.shell"@.len());
        assert("系统外壳窗口"@.len() != "incompatibility.shell"@.len());
        assert("系统外壳窗口"@.len() != "System shell window"@.len());
    } else if key == "incompatibility.self"@ {
        reveal_strlit("incompatibility.self");
        assert("incompatibility.self"@.len() != "menu.lang_en"@.len());
        assert("incompatibility.self"@.len() != "menu.lang_zh"@.len());
        assert("incompatibility.self"@.len() != "menu.separator"@.len());
        assert("incompatibility.self"@.len() != "tray.tooltip"@.len());
        reveal_strlit("BetterPanely window");
        reveal_strlit("BetterPanely 自身窗口");
        assert(english_text(key) == "BetterPanely window"@);
        assert(chinese_text(key) == "BetterPanely 自身窗口"@);
        assert("BetterPanely window"@.len() != "incompatibility.self"@.len());
        assert("BetterPanely 自身窗口"@.len() != "incompatibility.self"@.len());
        assert("BetterPanely 自身窗口"@.len() != "BetterPanely window"@.len());
    } else if key == "incompatibility.child"@ {
        reveal_strlit("incompatibility.child");
        assert("incompatibility.child"@.len() != "menu.lang_en"@.len());
        assert("incompatibility.child"@.len() != "menu.lang_zh"@.len());
        assert("incompatibility.child"@.len() != "menu.separator"@.len());
        assert("incompatibility.child"@.len() != "tray.tooltip"@.len());
        reveal_strlit("Already a child window");
        reveal_strlit("已是子窗口");
        assert(english_text(key) == "Already a child window"@);
        assert(chinese_text(key) == "已是子窗口"@);
        assert("Already a child window"@.len() != "incompatibility.child"@.len());
        assert("已是子窗口"@.len() != "incompatibility.child"@.len());
        assert("已是子窗口"@.len() != "Already a child window"@.len());
    } else if key == "incompatibility.elevated"@ {
        reveal_strlit("incompatibility.elevated");
        assert("incompatibility.elevated"@.len() != "menu.lang_en"@.len());
        assert("incompatibility.elevated"@.len() != "menu.lang_zh"@.len());
        assert("incompatibility.elevated"@.len() != "menu.separator"@.len());
        assert("incompatibility.elevated"@.len() != "tray.tooltip"@.len());
        reveal_strlit("Administrator process (UIPI blocked)");
        reveal_strlit("管理员进程 (UIPI 阻止)");
        assert(english_text(key) == "Administrator process (UIPI blocked)"@);
        assert(chinese_text(key) == "管理员进程 (UIPI 阻止)"@);
        assert("Administrator process (UIPI blocked)"@.len() != "incompatibility.elevated"@.len());
        assert("管理员进程 (UIPI 阻止)"@.len() != "incompatibility.elevated"@.len());
        assert("管理员进程 (UIPI 阻止)"@.len() != "Administrator process (UIPI blocked)"@.len());
    } else if key == "incompatibility.fullscreen"@ {
        reveal_strlit("incompatibility.fullscreen");
        assert("incompatibility.fullscreen"@.len() != "menu.lang_en"@.len());
        assert("incompatibility.fullscreen"@.len() != "menu.lang_zh"@.len());
        assert("incompatibility.fullscreen"@.len() != "menu.separator"@.len());
        assert("incompatibility.fullscreen"@.len() != "tray.tooltip"@.len());
        reveal_strlit("Fullscreen / DirectX application");
        reveal_strlit("全屏/DirectX 应用");
        assert(english_text(key) == "Fullscreen / DirectX application"@);
        assert(chinese_text(key) == "全屏/DirectX 应用"@);
        assert("Fullscreen / DirectX application"@.len() != "incompatibility.fullscreen"@.len());
        assert("全屏/DirectX 应用"@.len() != "incompatibility.fullscreen"@.len());
        assert("全屏/DirectX 应用"@.len() != "Fullscreen / DirectX application"@.len());
    }
}

} // verus!
