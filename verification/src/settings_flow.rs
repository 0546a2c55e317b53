//! The decisions of the settings commands: the order in which an update
//! touches the startup registration, the capture hotkey and the settings file,
//! and what is undone when one of them fails.
//!
//! Each flow is a state machine. The caller performs the effect a step asks
//! for and hands its outcome to the next step; a `Finish` step lists the
//! follow-up notices to perform and the command's result.

use vstd::prelude::*;

use crate::settings::{AppSettings, AppStateManager, SettingsView, normalized_settings, normalized_language};
use crate::text::str_eq;

verus! {

/// An effect whose outcome the flow waits for.
pub enum SettingsEffect {
    /// Register or unregister the application to launch at login.
    ApplyStartup { enabled: bool },
    /// Move the capture hotkey from one shortcut to another.
    ReplaceHotkey { from: String, to: String },
    /// Write the settings file with the given settings.
    Save { settings: AppSettings },
}

/// A follow-up whose outcome does not change the result.
pub enum SettingsNotice {
    /// Move the capture hotkey back; a failure is ignored.
    RevertHotkey { from: String, to: String },
    /// Put the startup registration back; a failure is only logged.
    RevertStartup { enabled: bool },
    /// Relabel the tray menu in the new language.
    RefreshTrayLanguage { language: String },
    /// Tell the windows that the language changed.
    EmitLanguageChanged { language: String },
    /// Tell the windows that the settings changed.
    EmitSettingsChanged { settings: AppSettings },
}

/// What the caller does next.
pub enum SettingsStep {
    Perform(SettingsEffect),
    Finish { notices: Vec<SettingsNotice>, result: Result<AppSettings, String> },
}

/// Where a settings update stands.
#[derive(PartialEq, Eq, Structural, Clone, Copy, Debug)]
pub enum UpdatePhase {
    Start,
    AwaitStartup,
    AwaitHotkey,
    AwaitSave,
    Done,
}

/// A settings update in progress (the `set_settings` command).
pub struct SettingsUpdate {
    pub old: AppSettings,
    pub new: AppSettings,
    pub startup_changed: bool,
    pub hotkey_changed: bool,
    pub phase: UpdatePhase,
}

/// The notices of a failed hotkey change: the startup registration is put back
/// when it was changed.
pub open spec fn hotkey_failure_notices(old: SettingsView, startup_changed: bool) -> Seq<NoticeView> {
    if startup_changed {
        seq![NoticeView::RevertStartup { enabled: old.launch_on_startup }]
    } else {
        seq![]
    }
}

/// The notices of a failed save: the hotkey is moved back, then the startup
/// registration is put back, each when it was changed.
pub open spec fn save_failure_notices(
    old: SettingsView,
    new: SettingsView,
    startup_changed: bool,
    hotkey_changed: bool,
) -> Seq<NoticeView> {
    (if hotkey_changed {
        seq![NoticeView::RevertHotkey { from: new.capture_hotkey, to: old.capture_hotkey }]
    } else {
        seq![]
    }) + hotkey_failure_notices(old, startup_changed)
}

/// The notices of a saved update: when the language changed, the tray is
/// relabelled and the change announced; the new settings are announced last.
pub open spec fn success_notices(old: SettingsView, saved: SettingsView) -> Seq<NoticeView> {
    (if old.language != saved.language {
        seq![
            NoticeView::RefreshTrayLanguage { language: saved.language },
            NoticeView::EmitLanguageChanged { language: saved.language },
        ]
    } else {
        seq![]
    }) + seq![NoticeView::EmitSettingsChanged { settings: saved }]
}

/// The content of a notice.
pub enum NoticeView {
    RevertHotkey { from: Seq<char>, to: Seq<char> },
    RevertStartup { enabled: bool },
    RefreshTrayLanguage { language: Seq<char> },
    EmitLanguageChanged { language: Seq<char> },
    EmitSettingsChanged { settings: SettingsView },
}

impl View for SettingsNotice {
    type V = NoticeView;

    open spec fn view(&self) -> NoticeView {
        match self {
            SettingsNotice::RevertHotkey { from, to } => NoticeView::RevertHotkey { from: from@, to: to@ },
            SettingsNotice::RevertStartup { enabled } => NoticeView::RevertStartup { enabled: *enabled },
            SettingsNotice::RefreshTrayLanguage { language } => NoticeView::RefreshTrayLanguage { language: language@ },
            SettingsNotice::EmitLanguageChanged { language } => NoticeView::EmitLanguageChanged { language: language@ },
            SettingsNotice::EmitSettingsChanged { settings } => NoticeView::EmitSettingsChanged { settings: settings@ },
        }
    }
}

/// The contents of a list of notices.
pub open spec fn notices_view(v: Seq<SettingsNotice>) -> Seq<NoticeView> {
    v.map_values(|n: SettingsNotice| n@)
}

/// The content of an effect.
pub enum EffectView {
    ApplyStartup { enabled: bool },
    ReplaceHotkey { from: Seq<char>, to: Seq<char> },
    Save { settings: SettingsView },
}

impl View for SettingsEffect {
    type V = EffectView;

    open spec fn view(&self) -> EffectView {
        match self {
            SettingsEffect::ApplyStartup { enabled } => EffectView::ApplyStartup { enabled: *enabled },
            SettingsEffect::ReplaceHotkey { from, to } => EffectView::ReplaceHotkey { from: from@, to: to@ },
            SettingsEffect::Save { settings } => EffectView::Save { settings: settings@ },
        }
    }
}

/// Whether `step` asks for `effect`.
pub open spec fn performs(step: SettingsStep, effect: EffectView) -> bool {
    step matches SettingsStep::Perform(e) && e@ == effect
}

/// Whether `step` ends the flow with `notices` and an error `message`.
pub open spec fn fails_with(step: SettingsStep, notices: Seq<NoticeView>, message: Seq<char>) -> bool {
    step matches SettingsStep::Finish { notices: n, result: Err(m) } && notices_view(n@) == notices && m@ == message
}

/// Whether `step` ends the flow with `notices` and the settings `saved`.
pub open spec fn succeeds_with(step: SettingsStep, notices: Seq<NoticeView>, saved: SettingsView) -> bool {
    step matches SettingsStep::Finish { notices: n, result: Ok(s) } && notices_view(n@) == notices && s@ == saved
}

fn notice_list_one(n: SettingsNotice) -> (v: Vec<SettingsNotice>)
    ensures
        notices_view(v@) == seq![n@],
{
    let mut v = Vec::new();
    v.push(n);
    proof {
        assert(notices_view(v@) =~= seq![n@]);
    }
    v
}

impl SettingsUpdate {
    /// The invariant of an update: the new settings are normalised and the
    /// flags compare them with the old ones.
    pub open spec fn wf(&self, hotkeys_supported: bool) -> bool {
        &&& self.startup_changed == (self.old.launch_on_startup != self.new.launch_on_startup)
        &&& self.hotkey_changed == (hotkeys_supported && self.old.capture_hotkey@ != self.new.capture_hotkey@)
    }

    /// Plans replacing `current` with `requested`. The capture hotkey is only
    /// moved where the platform supports global hotkeys.
    pub fn new(current: &AppSettings, requested: AppSettings, hotkeys_supported: bool) -> (u: SettingsUpdate)
        ensures
            u.old@ == current@,
            u.new@ == normalized_settings(requested@),
            u.wf(hotkeys_supported),
            u.phase == UpdatePhase::Start,
    {
        let new = requested.normalized();
        let old = current.duplicate();
        let startup_changed = old.launch_on_startup != new.launch_on_startup;
        let hotkey_changed = hotkeys_supported && !str_eq(old.capture_hotkey.as_str(), new.capture_hotkey.as_str());
        SettingsUpdate { old, new, startup_changed, hotkey_changed, phase: UpdatePhase::Start }
    }

    fn to_hotkey(&mut self, mgr: &mut AppStateManager) -> (step: SettingsStep)
        ensures
            final(self).old == old(self).old,
            final(self).new == old(self).new,
            final(self).startup_changed == old(self).startup_changed,
            final(self).hotkey_changed == old(self).hotkey_changed,
            old(self).hotkey_changed ==> {
                &&& final(self).phase == UpdatePhase::AwaitHotkey
                &&& performs(step, EffectView::ReplaceHotkey { from: old(self).old.capture_hotkey@, to: old(self).new.capture_hotkey@ })
                &&& *final(mgr) == *old(mgr)
            },
            !old(self).hotkey_changed ==> {
                &&& final(self).phase == UpdatePhase::AwaitSave
                &&& final(mgr).settings@ == normalized_settings(old(self).new@)
                &&& final(mgr).state_path == old(mgr).state_path
                &&& performs(step, EffectView::Save { settings: normalized_settings(old(self).new@) })
            },
    {
        if self.hotkey_changed {
            self.phase = UpdatePhase::AwaitHotkey;
            SettingsStep::Perform(SettingsEffect::ReplaceHotkey {
                from: self.old.capture_hotkey.clone(),
                to: self.new.capture_hotkey.clone(),
            })
        } else {
            self.to_save(mgr)
        }
    }

    fn to_save(&mut self, mgr: &mut AppStateManager) -> (step: SettingsStep)
        ensures
            final(self).old == old(self).old,
            final(self).new == old(self).new,
            final(self).startup_changed == old(self).startup_changed,
            final(self).hotkey_changed == old(self).hotkey_changed,
            final(self).phase == UpdatePhase::AwaitSave,
            final(mgr).settings@ == normalized_settings(old(self).new@),
            final(mgr).state_path == old(mgr).state_path,
            performs(step, EffectView::Save { settings: normalized_settings(old(self).new@) }),
    {
        let saved = mgr.set_settings(self.new.duplicate());
        self.phase = UpdatePhase::AwaitSave;
        SettingsStep::Perform(SettingsEffect::Save { settings: saved })
    }

    /// Advances the update with the outcome of the effect the previous step
    /// asked for (the first call's outcome is not read).
    ///
    /// The startup registration is applied first, when it changes; a failure
    /// there ends the update with that error. The hotkey is moved next; a
    /// failure there puts the startup registration back. Then the manager takes
    /// the new settings and the file is written; a failure there moves the
    /// hotkey back, puts the startup registration back and restores the old
    /// settings in the manager.
    pub fn step(&mut self, mgr: &mut AppStateManager, outcome: Result<(), String>) -> (step: SettingsStep)
        requires
            old(self).phase != UpdatePhase::Done,
        ensures
            final(self).old == old(self).old,
            final(self).new == old(self).new,
            final(self).startup_changed == old(self).startup_changed,
            final(self).hotkey_changed == old(self).hotkey_changed,
            final(mgr).state_path == old(mgr).state_path,
            old(self).phase == UpdatePhase::Start ==> {
                if old(self).startup_changed {
                    &&& final(self).phase == UpdatePhase::AwaitStartup
                    &&& performs(step, EffectView::ApplyStartup { enabled: old(self).new.launch_on_startup })
                    &&& *final(mgr) == *old(mgr)
                } else if old(self).hotkey_changed {
                    &&& final(self).phase == UpdatePhase::AwaitHotkey
                    &&& performs(step, EffectView::ReplaceHotkey { from: old(self).old.capture_hotkey@, to: old(self).new.capture_hotkey@ })
                    &&& *final(mgr) == *old(mgr)
                } else {
                    &&& final(self).phase == UpdatePhase::AwaitSave
                    &&& final(mgr).settings@ == normalized_settings(old(self).new@)
                    &&& performs(step, EffectView::Save { settings: normalized_settings(old(self).new@) })
                }
            },
            old(self).phase == UpdatePhase::AwaitStartup ==> match outcome {
                Err(e) => {
                    &&& final(self).phase == UpdatePhase::Done
                    &&& fails_with(step, seq![], e@)
                    &&& *final(mgr) == *old(mgr)
                },
                Ok(_) => if old(self).hotkey_changed {
                    &&& final(self).phase == UpdatePhase::AwaitHotkey
                    &&& performs(step, EffectView::ReplaceHotkey { from: old(self).old.capture_hotkey@, to: old(self).new.capture_hotkey@ })
                    &&& *final(mgr) == *old(mgr)
                } else {
                    &&& final(self).phase == UpdatePhase::AwaitSave
                    &&& final(mgr).settings@ == normalized_settings(old(self).new@)
                    &&& performs(step, EffectView::Save { settings: normalized_settings(old(self).new@) })
                },
            },
            old(self).phase == UpdatePhase::AwaitHotkey ==> match outcome {
                Err(e) => {
                    &&& final(self).phase == UpdatePhase::Done
                    &&& fails_with(step, hotkey_failure_notices(old(self).old@, old(self).startup_changed), e@)
                    &&& *final(mgr) == *old(mgr)
                },
                Ok(_) => {
                    &&& final(self).phase == UpdatePhase::AwaitSave
                    &&& final(mgr).settings@ == normalized_settings(old(self).new@)
                    &&& performs(step, EffectView::Save { settings: normalized_settings(old(self).new@) })
                },
            },
            old(self).phase == UpdatePhase::AwaitSave ==> {
                &&& final(self).phase == UpdatePhase::Done
                &&& match outcome {
                    Err(e) => {
                        &&& final(mgr).settings@ == normalized_settings(old(self).old@)
                        &&& fails_with(step, save_failure_notices(old(self).old@, old(self).new@,
                                old(self).startup_changed, old(self).hotkey_changed), e@)
                    },
                    Ok(_) => {
                        &&& *final(mgr) == *old(mgr)
                        &&& succeeds_with(step, success_notices(old(self).old@, old(mgr).settings@), old(mgr).settings@)
                    },
                }
            },
    {
        match self.phase {
            UpdatePhase::Start => {
                if self.startup_changed {
                    self.phase = UpdatePhase::AwaitStartup;
                    SettingsStep::Perform(SettingsEffect::ApplyStartup { enabled: self.new.launch_on_startup })
                } else {
                    self.to_hotkey(mgr)
                }
            },
            UpdatePhase::AwaitStartup => {
                match outcome {
                    Err(e) => {
                        self.phase = UpdatePhase::Done;
                        let notices: Vec<SettingsNotice> = Vec::new();
                        proof {
                            assert(notices_view(notices@) =~= seq![]);
                        }
                        SettingsStep::Finish { notices, result: Err(e) }
                    },
                    Ok(_) => self.to_hotkey(mgr),
                }
            },
            UpdatePhase::AwaitHotkey => {
                match outcome {
                    Err(e) => {
                        self.phase = UpdatePhase::Done;
                        let notices = self.startup_rollback();
                        SettingsStep::Finish { notices, result: Err(e) }
                    },
                    Ok(_) => self.to_save(mgr),
                }
            },
            _ => {
                self.phase = UpdatePhase::Done;
                match outcome {
                    Err(e) => {
                        let mut notices: Vec<SettingsNotice> = Vec::new();
                        if self.hotkey_changed {
                            notices.push(SettingsNotice::RevertHotkey {
                                from: self.new.capture_hotkey.clone(),
                                to: self.old.capture_hotkey.clone(),
                            });
                        }
                        let mut rest = self.startup_rollback();
                        let ghost first = notices@;
                        let ghost second = rest@;
                        notices.append(&mut rest);
                        proof {
                            assert(notices_view(notices@) =~= notices_view(first) + notices_view(second));
                            if self.hotkey_changed {
                                assert(notices_view(first) =~= seq![NoticeView::RevertHotkey {
                                    from: self.new.capture_hotkey@, to: self.old.capture_hotkey@ }]);
                            } else {
                                assert(notices_view(first) =~= seq![]);
                            }
                        }
                        mgr.set_settings(self.old.duplicate());
                        SettingsStep::Finish { notices, result: Err(e) }
                    },
                    Ok(_) => {
                        let saved = mgr.settings.duplicate();
                        let notices = announce_saved(&self.old, &saved);
                        SettingsStep::Finish { notices, result: Ok(saved) }
                    },
                }
            },
        }
    }

    fn startup_rollback(&self) -> (v: Vec<SettingsNotice>)
        ensures
            notices_view(v@) == hotkey_failure_notices(self.old@, self.startup_changed),
    {
        if self.startup_changed {
            notice_list_one(SettingsNotice::RevertStartup { enabled: self.old.launch_on_startup })
        } else {
            let v: Vec<SettingsNotice> = Vec::new();
            proof {
                assert(notices_view(v@) =~= seq![]);
            }
            v
        }
    }
}

/// Starts a language change (the `set_language` command): the manager takes
/// the normalised language at once, and the returned settings are to be
/// written to the settings file.
pub fn begin_language_change(mgr: &mut AppStateManager, lang: &str) -> (r: (String, AppSettings))
    ensures
        r.0@ == normalized_language(lang@),
        final(mgr).settings@ == (SettingsView { language: normalized_language(lang@), ..old(mgr).settings@ }),
        final(mgr).state_path == old(mgr).state_path,
        r.1@ == final(mgr).settings@,
{
    let new_lang = mgr.set_language(lang);
    let to_save = mgr.settings.duplicate();
    (new_lang, to_save)
}

/// The end of a language change, given whether the settings file was
/// written. A failed write is returned as the error and the new language is
/// kept in memory; a successful one relabels the tray and announces the
/// language and then the settings.
pub fn finish_language_change(new_lang: String, saved: &AppSettings, outcome: Result<(), String>)
    -> (r: (Vec<SettingsNotice>, Result<String, String>))
    ensures
        match outcome {
            Err(e) => notices_view(r.0@) == Seq::<NoticeView>::empty() && r.1 == Err::<String, String>(e),
            Ok(_) => {
                &&& notices_view(r.0@) == seq![
                    NoticeView::RefreshTrayLanguage { language: new_lang@ },
                    NoticeView::EmitLanguageChanged { language: new_lang@ },
                    NoticeView::EmitSettingsChanged { settings: saved@ },
                ]
                &&& r.1 matches Ok(l) && l@ == new_lang@
            },
        },
{
    let mut v: Vec<SettingsNotice> = Vec::new();
    match outcome {
        Err(e) => {
            proof {
                assert(notices_view(v@) =~= Seq::<NoticeView>::empty());
            }
            (v, Err(e))
        },
        Ok(_) => {
            v.push(SettingsNotice::RefreshTrayLanguage { language: new_lang.clone() });
            v.push(SettingsNotice::EmitLanguageChanged { language: new_lang.clone() });
            v.push(SettingsNotice::EmitSettingsChanged { settings: saved.duplicate() });
            proof {
                assert(notices_view(v@) =~= seq![
                    NoticeView::RefreshTrayLanguage { language: new_lang@ },
                    NoticeView::EmitLanguageChanged { language: new_lang@ },
                    NoticeView::EmitSettingsChanged { settings: saved@ },
                ]);
            }
            (v, Ok(new_lang))
        },
    }
}

/// What the startup registration does with the `Run` registry value.
pub enum RunValueUpdate {
    /// Set the value to this command line.
    Write { command: String },
    /// Delete the value.
    Delete,
}

/// The Windows status code of success.
pub open spec fn status_success() -> u32 {
    0
}

/// The Windows status code of a missing file or value.
pub open spec fn status_not_found() -> u32 {
    2
}

/// How the startup registration changes the `Run` value: launching at login
/// sets it to the quoted path of the executable; otherwise it is deleted.
pub fn run_value_update(enabled: bool, exe_path: &str) -> (r: RunValueUpdate)
    ensures
        enabled ==> (r matches RunValueUpdate::Write { command } && command@ == seq!['"'] + exe_path@ + seq!['"']),
        !enabled ==> r is Delete,
{
    if enabled {
        let mut command = "\"".to_owned();
        command.append(exe_path);
        command.append("\"");
        proof {
            reveal_strlit("\"");
        }
        RunValueUpdate::Write { command }
    } else {
        RunValueUpdate::Delete
    }
}

/// The status of deleting the `Run` value: a value that is not there counts
/// as deleted.
pub fn delete_status(code: u32) -> (r: u32)
    ensures
        r == (if code == status_not_found() { status_success() } else { code }),
{
    if code == 2 { 0 } else { code }
}

/// A failed registry call: what was being done and the Windows status code.
pub struct RegistryFailure {
    pub context: String,
    pub code: u32,
}

/// Checks one registry status code.
pub fn registry_check(code: u32, context: &str) -> (r: Result<(), RegistryFailure>)
    ensures
        code == status_success() ==> r is Ok,
        code != status_success() ==> (r matches Err(f) && f.code == code && f.context@ == context@),
{
    if code == 0 {
        Ok(())
    } else {
        Err(RegistryFailure { context: context.to_owned(), code })
    }
}

/// The outcome of updating the `Run` value: the update's own status is
/// reported before that of closing the key.
pub fn finish_run_value_update(update_code: u32, close_code: u32) -> (r: Result<(), RegistryFailure>)
    ensures
        update_code != status_success() ==> (r matches Err(f) && f.code == update_code
            && f.context@ == "Failed to update Windows startup registry value"@),
        update_code == status_success() && close_code != status_success() ==> (r matches Err(f)
            && f.code == close_code && f.context@ == "Failed to close Windows startup registry key"@),
        update_code == status_success() && close_code == status_success() ==> r is Ok,
{
    match registry_check(update_code, "Failed to update Windows startup registry value") {
        Err(f) => Err(f),
        Ok(()) => registry_check(close_code, "Failed to close Windows startup registry key"),
    }
}

/// The notices that follow a saved settings change.
fn announce_saved(old: &AppSettings, saved: &AppSettings) -> (v: Vec<SettingsNotice>)
    ensures
        notices_view(v@) == success_notices(old@, saved@),
{
    let mut v: Vec<SettingsNotice> = Vec::new();
    let changed = !str_eq(old.language.as_str(), saved.language.as_str());
    if changed {
        v.push(SettingsNotice::RefreshTrayLanguage { language: saved.language.clone() });
        v.push(SettingsNotice::EmitLanguageChanged { language: saved.language.clone() });
    }
    let ghost first = v@;
    v.push(SettingsNotice::EmitSettingsChanged { settings: saved.duplicate() });
    proof {
        assert(notices_view(v@) =~= notices_view(first) + seq![NoticeView::EmitSettingsChanged { settings: saved@ }]);
        if changed {
            assert(notices_view(first) =~= seq![
                NoticeView::RefreshTrayLanguage { language: saved.language@ },
                NoticeView::EmitLanguageChanged { language: saved.language@ },
            ]);
        } else {
            assert(notices_view(first) =~= seq![]);
        }
    }
    v
}

} // verus!
