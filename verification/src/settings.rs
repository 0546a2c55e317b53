//! Application settings: their defaults, the normalisation of values that
//! come from outside, and the manager that holds the current settings.

use vstd::prelude::*;

use crate::text::{str_eq, trim, trimmed, lemma_trimmed_idempotent, lemma_trimmed_fixed};

verus! {

broadcast use vstd::string::group_string_axioms;

/// The application settings, as the settings page edits them.
pub struct AppSettings {
    pub launch_on_startup: bool,
    pub minimize_to_tray: bool,
    pub theme: String,
    pub capture_hotkey: String,
    pub language: String,
}

/// The mathematical content of `AppSettings`.
pub struct SettingsView {
    pub launch_on_startup: bool,
    pub minimize_to_tray: bool,
    pub theme: Seq<char>,
    pub capture_hotkey: Seq<char>,
    pub language: Seq<char>,
}

impl View for AppSettings {
    type V = SettingsView;

    open spec fn view(&self) -> SettingsView {
        SettingsView {
            launch_on_startup: self.launch_on_startup,
            minimize_to_tray: self.minimize_to_tray,
            theme: self.theme@,
            capture_hotkey: self.capture_hotkey@,
            language: self.language@,
        }
    }
}

/// The default theme.
pub open spec fn default_theme_text() -> Seq<char> {
    "dark"@
}

/// The default capture hotkey.
pub open spec fn default_hotkey_text() -> Seq<char> {
    "Ctrl+Shift+W"@
}

/// The default language.
pub open spec fn default_language_text() -> Seq<char> {
    "en"@
}

/// The settings a fresh installation starts with.
pub open spec fn default_settings() -> SettingsView {
    SettingsView {
        launch_on_startup: false,
        minimize_to_tray: true,
        theme: default_theme_text(),
        capture_hotkey: default_hotkey_text(),
        language: default_language_text(),
    }
}

/// Launching at login is off by default.
pub fn default_launch_on_startup() -> (r: bool)
    ensures
        r == default_settings().launch_on_startup,
{
    false
}

/// Closing to the tray is on by default.
pub fn default_minimize_to_tray() -> (r: bool)
    ensures
        r == default_settings().minimize_to_tray,
{
    true
}

/// The default theme, `"dark"`.
pub fn default_theme() -> (r: String)
    ensures
        r@ == default_theme_text(),
{
    "dark".to_owned()
}

/// The default capture hotkey, `"Ctrl+Shift+W"`.
pub fn default_capture_hotkey() -> (r: String)
    ensures
        r@ == default_hotkey_text(),
{
    "Ctrl+Shift+W".to_owned()
}

/// The default language, `"en"`.
pub fn default_language() -> (r: String)
    ensures
        r@ == default_language_text(),
{
    "en".to_owned()
}

impl AppSettings {
    /// A field-by-field copy.
    pub fn duplicate(&self) -> (r: AppSettings)
        ensures
            r@ == self@,
    {
        AppSettings {
            launch_on_startup: self.launch_on_startup,
            minimize_to_tray: self.minimize_to_tray,
            theme: self.theme.clone(),
            capture_hotkey: self.capture_hotkey.clone(),
            language: self.language.clone(),
        }
    }
}

impl Default for AppSettings {
    fn default() -> (r: AppSettings)
        ensures
            r@ == default_settings(),
    {
        AppSettings {
            launch_on_startup: default_launch_on_startup(),
            minimize_to_tray: default_minimize_to_tray(),
            theme: default_theme(),
            capture_hotkey: default_capture_hotkey(),
            language: default_language(),
        }
    }
}

/// The language code that `lang` stands for: `"zh"` for the Chinese spellings
/// the settings page and older files use, `"en"` for everything else.
pub open spec fn normalized_language(lang: Seq<char>) -> Seq<char> {
    if lang == "zh"@ || lang == "zh-CN"@ || lang == "zh_CN"@ || lang == "chinese"@ {
        "zh"@
    } else {
        "en"@
    }
}

/// The theme that `theme` stands for: `"light"` and `"system"` are kept,
/// everything else becomes `"dark"`.
pub open spec fn normalized_theme(theme: Seq<char>) -> Seq<char> {
    if theme == "light"@ || theme == "system"@ {
        theme
    } else {
        default_theme_text()
    }
}

/// The hotkey that `hotkey` stands for: trimmed, or the default when nothing
/// but white space is left.
pub open spec fn normalized_hotkey(hotkey: Seq<char>) -> Seq<char> {
    if trimmed(hotkey).len() == 0 {
        default_hotkey_text()
    } else {
        trimmed(hotkey)
    }
}

/// `s` with language, theme and hotkey normalised and the switches unchanged.
pub open spec fn normalized_settings(s: SettingsView) -> SettingsView {
    SettingsView {
        launch_on_startup: s.launch_on_startup,
        minimize_to_tray: s.minimize_to_tray,
        theme: normalized_theme(s.theme),
        capture_hotkey: normalized_hotkey(s.capture_hotkey),
        language: normalized_language(s.language),
    }
}

/// Maps a language spelling to the code the application uses.
pub fn normalize_language(lang: &str) -> (r: String)
    ensures
        r@ == normalized_language(lang@),
{
    if str_eq(lang, "zh") || str_eq(lang, "zh-CN") || str_eq(lang, "zh_CN") || str_eq(lang, "chinese") {
        "zh".to_owned()
    } else {
        "en".to_owned()
    }
}

/// Maps a theme name to one the application knows.
pub fn normalize_theme(theme: &str) -> (r: String)
    ensures
        r@ == normalized_theme(theme@),
{
    if str_eq(theme, "light") || str_eq(theme, "system") {
        theme.to_owned()
    } else {
        default_theme()
    }
}

/// Trims a hotkey, falling back to the default hotkey when it is blank.
pub fn normalize_capture_hotkey(hotkey: &str) -> (r: String)
    ensures
        r@ == normalized_hotkey(hotkey@),
{
    let trimmed_hotkey = trim(hotkey);
    if trimmed_hotkey.as_str().is_empty() {
        let defaults = AppSettings::default();
        defaults.capture_hotkey
    } else {
        trimmed_hotkey
    }
}

impl AppSettings {
    /// The settings with language, theme and hotkey normalised.
    pub fn normalized(self) -> (r: AppSettings)
        ensures
            r@ == normalized_settings(self@),
            r.launch_on_startup == self.launch_on_startup,
            r.minimize_to_tray == self.minimize_to_tray,
    {
        let mut s = self;
        s.language = normalize_language(s.language.as_str());
        s.theme = normalize_theme(s.theme.as_str());
        s.capture_hotkey = normalize_capture_hotkey(s.capture_hotkey.as_str());
        s
    }
}

/// Whether settings are in normal form: normalising them changes nothing.
pub open spec fn is_normal(s: SettingsView) -> bool {
    normalized_settings(s) == s
}

/// Holds the current settings and the path of the file they are kept in.
pub struct AppStateManager {
    pub state_path: String,
    pub settings: AppSettings,
}

impl AppStateManager {
    /// A manager with default settings, kept at `state_path`.
    pub fn new(state_path: String) -> (r: AppStateManager)
        ensures
            r.settings@ == default_settings(),
            is_normal(r.settings@),
            r.state_path()@ == state_path@,
    {
        proof {
            lemma_defaults_normalized();
        }
        AppStateManager { state_path, settings: AppSettings::default() }
    }

    /// The path of the settings file.
    pub open spec fn state_path(&self) -> String {
        self.state_path
    }

    /// The path of the settings file.
    pub fn get_state_path(&self) -> (r: &String)
        ensures
            r@ == self.state_path()@,
    {
        &self.state_path
    }

    /// The current settings.
    pub fn get_settings(&self) -> (r: &AppSettings)
        ensures
            r@ == self.settings@,
    {
        &self.settings
    }

    /// Replaces all settings after normalising them, and returns what is now held.
    pub fn set_settings(&mut self, settings: AppSettings) -> (r: AppSettings)
        ensures
            final(self).settings@ == normalized_settings(settings@),
            r@ == final(self).settings@,
            final(self).settings.launch_on_startup == settings.launch_on_startup,
            final(self).settings.minimize_to_tray == settings.minimize_to_tray,
            is_normal(final(self).settings@),
            final(self).state_path() == old(self).state_path(),
    {
        proof {
            lemma_normalized_idempotent(settings@);
        }
        self.settings = settings.normalized();
        self.settings.duplicate()
    }

    /// Sets the language (normalised) and returns the new language code.
    pub fn set_language(&mut self, lang: &str) -> (r: String)
        ensures
            r@ == normalized_language(lang@),
            final(self).settings@ == (SettingsView { language: normalized_language(lang@), ..old(self).settings@ }),
            is_normal(old(self).settings@) ==> is_normal(final(self).settings@),
            final(self).state_path() == old(self).state_path(),
    {
        proof {
            lemma_language_fixed(lang@);
        }
        let normalized = normalize_language(lang);
        self.settings.language = normalized.clone();
        normalized
    }

    /// The current language code.
    pub fn get_language(&self) -> (r: String)
        ensures
            r@ == self.settings.language@,
    {
        self.settings.language.clone()
    }

    /// Takes over settings read back from the settings file, normalised.
    pub fn restore_settings(&mut self, loaded: AppSettings)
        ensures
            final(self).settings@ == normalized_settings(loaded@),
            is_normal(final(self).settings@),
            final(self).state_path() == old(self).state_path(),
    {
        proof {
            lemma_normalized_idempotent(loaded@);
        }
        self.settings = loaded.normalized();
    }
}

/// The default hotkey has no white space around it.
proof fn lemma_default_hotkey_trimmed()
    ensures
        trimmed(default_hotkey_text()) == default_hotkey_text(),
        default_hotkey_text().len() > 0,
{
    reveal_strlit("Ctrl+Shift+W");
    lemma_trimmed_fixed(default_hotkey_text());
}

/// Every normalised language is `"en"` or `"zh"`.
pub proof fn lemma_language_codes(lang: Seq<char>)
    ensures
        normalized_language(lang) == "en"@ || normalized_language(lang) == "zh"@,
{
}

/// A normalised language code is its own normal form.
pub proof fn lemma_language_fixed(lang: Seq<char>)
    ensures
        normalized_language(normalized_language(lang)) == normalized_language(lang),
{
    reveal_strlit("en");
    reveal_strlit("zh");
    reveal_strlit("zh-CN");
    reveal_strlit("zh_CN");
    reveal_strlit("chinese");
}

/// Normalising settings twice gives what normalising once gives: values the
/// application wrote itself come back unchanged.
pub proof fn lemma_normalized_idempotent(s: SettingsView)
    ensures
        normalized_settings(normalized_settings(s)) == normalized_settings(s),
{
    reveal_strlit("en");
    reveal_strlit("zh");
    reveal_strlit("zh-CN");
    reveal_strlit("zh_CN");
    reveal_strlit("chinese");
    lemma_default_hotkey_trimmed();
    lemma_trimmed_idempotent(s.capture_hotkey);
    let n = normalized_settings(s);
    assert(normalized_language(n.language) == n.language);
    assert(normalized_theme(n.theme) == n.theme);
    assert(normalized_hotkey(n.capture_hotkey) == n.capture_hotkey);
}

/// The defaults are already normal.
pub proof fn lemma_defaults_normalized()
    ensures
        normalized_settings(default_settings()) == default_settings(),
{
    reveal_strlit("en");
    reveal_strlit("zh");
    reveal_strlit("zh-CN");
    reveal_strlit("zh_CN");
    reveal_strlit("chinese");
    lemma_default_hotkey_trimmed();
    let d = default_settings();
    assert(normalized_language(d.language) == d.language);
    assert(normalized_theme(d.theme) == d.theme);
    assert(normalized_hotkey(d.capture_hotkey) == d.capture_hotkey);
}

/// The state shared by the application's command handlers.
pub struct AppState {
    pub state_manager: AppStateManager,
}

/// Normalising settings keeps the user's switches as they are: only the
/// language, theme and hotkey texts are rewritten.
pub proof fn lemma_normalizing_keeps_switches(s: SettingsView)
    ensures
        normalized_settings(s).launch_on_startup == s.launch_on_startup,
        normalized_settings(s).minimize_to_tray == s.minimize_to_tray,
{
}

} // verus!
