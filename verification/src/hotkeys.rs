//! Moving the capture hotkey from one shortcut to another without losing the
//! old one when the new one cannot be registered.

use vstd::prelude::*;

use crate::text::str_eq;

verus! {

/// A call on the global-shortcut service.
pub enum HotkeyEffect {
    /// Ask whether a shortcut is registered.
    IsRegistered { shortcut: String },
    /// Unregister a shortcut.
    Unregister { shortcut: String },
    /// Register a shortcut for the capture hotkey.
    Register { shortcut: String },
}

/// The answer of the global-shortcut service to a `HotkeyEffect`.
pub enum HotkeyOutcome {
    /// The answer to `IsRegistered`.
    Registered(bool),
    /// The result of `Unregister` or `Register`.
    Completed(Result<(), String>),
}

/// What the caller does next.
pub enum HotkeyStep {
    Perform(HotkeyEffect),
    Finish(Result<(), String>),
}

/// Where a replacement stands.
#[derive(PartialEq, Eq, Structural, Clone, Copy, Debug)]
pub enum HotkeyPhase {
    Start,
    AwaitSameCheck,
    AwaitSameRegister,
    AwaitOldCheck,
    AwaitUnregister,
    AwaitRegister,
    AwaitRestore,
    Done,
}

/// A replacement of the capture hotkey in progress.
pub struct HotkeyReplacement {
    pub old_hotkey: String,
    pub new_hotkey: String,
    pub old_was_registered: bool,
    pub pending_error: String,
    pub phase: HotkeyPhase,
}

/// Whether `step` asks to ask whether `s` is registered.
pub open spec fn asks_registered(step: HotkeyStep, s: Seq<char>) -> bool {
    step matches HotkeyStep::Perform(HotkeyEffect::IsRegistered { shortcut }) && shortcut@ == s
}

/// Whether `step` asks to register `s`.
pub open spec fn asks_register(step: HotkeyStep, s: Seq<char>) -> bool {
    step matches HotkeyStep::Perform(HotkeyEffect::Register { shortcut }) && shortcut@ == s
}

/// Whether `step` asks to unregister `s`.
pub open spec fn asks_unregister(step: HotkeyStep, s: Seq<char>) -> bool {
    step matches HotkeyStep::Perform(HotkeyEffect::Unregister { shortcut }) && shortcut@ == s
}

/// Whether `step` ends the replacement with `r`.
pub open spec fn finishes(step: HotkeyStep, r: Result<(), Seq<char>>) -> bool {
    match step {
        HotkeyStep::Finish(Ok(_)) => r is Ok,
        HotkeyStep::Finish(Err(e)) => r == Err::<(), Seq<char>>(e@),
        _ => false,
    }
}

/// Whether an outcome answers the effect a phase waits for.
pub open spec fn answers(phase: HotkeyPhase, outcome: HotkeyOutcome) -> bool {
    match phase {
        HotkeyPhase::AwaitSameCheck | HotkeyPhase::AwaitOldCheck => outcome is Registered,
        HotkeyPhase::Start => true,
        _ => outcome is Completed,
    }
}

impl HotkeyReplacement {
    /// Plans moving the capture hotkey from `old_hotkey` to `new_hotkey`.
    pub fn new(old_hotkey: &str, new_hotkey: &str) -> (r: HotkeyReplacement)
        ensures
            r.old_hotkey@ == old_hotkey@,
            r.new_hotkey@ == new_hotkey@,
            r.phase == HotkeyPhase::Start,
    {
        HotkeyReplacement {
            old_hotkey: old_hotkey.to_owned(),
            new_hotkey: new_hotkey.to_owned(),
            old_was_registered: false,
            pending_error: String::new(),
            phase: HotkeyPhase::Start,
        }
    }

    /// Advances the replacement with the answer to the previous step (the
    /// first call's answer is not read).
    ///
    /// An unchanged hotkey is registered only when it is not registered yet.
    /// A changed hotkey: the old one is unregistered when it was registered (a
    /// failure there ends the replacement), then the new one is registered;
    /// when that fails and the old one had been registered, the old one is
    /// registered again and the registration error is returned.
    pub fn step(&mut self, outcome: HotkeyOutcome) -> (step: HotkeyStep)
        requires
            old(self).phase != HotkeyPhase::Done,
            answers(old(self).phase, outcome),
        ensures
            final(self).old_hotkey == old(self).old_hotkey,
            final(self).new_hotkey == old(self).new_hotkey,
            ({
                let o = old(self).old_hotkey@;
                let n = old(self).new_hotkey@;
                let ph = old(self).phase;
                &&& ph == HotkeyPhase::Start ==> if o == n {
                    final(self).phase == HotkeyPhase::AwaitSameCheck && asks_registered(step, n)
                } else {
                    final(self).phase == HotkeyPhase::AwaitOldCheck && asks_registered(step, o)
                }
                &&& ph == HotkeyPhase::AwaitSameCheck ==> match outcome {
                    HotkeyOutcome::Registered(true) => final(self).phase == HotkeyPhase::Done
                        && finishes(step, Ok(())),
                    _ => final(self).phase == HotkeyPhase::AwaitSameRegister && asks_register(step, n),
                }
                &&& ph == HotkeyPhase::AwaitSameRegister ==> final(self).phase == HotkeyPhase::Done
                    && match outcome {
                        HotkeyOutcome::Completed(Err(e)) => finishes(step, Err(e@)),
                        _ => finishes(step, Ok(())),
                    }
                &&& ph == HotkeyPhase::AwaitOldCheck ==> match outcome {
                    HotkeyOutcome::Registered(true) => final(self).phase == HotkeyPhase::AwaitUnregister
                        && final(self).old_was_registered && asks_unregister(step, o),
                    _ => final(self).phase == HotkeyPhase::AwaitRegister
                        && !final(self).old_was_registered && asks_register(step, n),
                }
                &&& ph == HotkeyPhase::AwaitUnregister ==> match outcome {
                    HotkeyOutcome::Completed(Err(e)) => final(self).phase == HotkeyPhase::Done
                        && finishes(step, Err(e@)),
                    _ => final(self).phase == HotkeyPhase::AwaitRegister
                        && final(self).old_was_registered == old(self).old_was_registered
                        && asks_register(step, n),
                }
                &&& ph == HotkeyPhase::AwaitRegister ==> match outcome {
                    HotkeyOutcome::Completed(Err(e)) => if old(self).old_was_registered {
                        final(self).phase == HotkeyPhase::AwaitRestore && final(self).pending_error@ == e@
                            && asks_register(step, o)
                    } else {
                        final(self).phase == HotkeyPhase::Done && finishes(step, Err(e@))
                    },
                    _ => final(self).phase == HotkeyPhase::Done && finishes(step, Ok(())),
                }
                &&& ph == HotkeyPhase::AwaitRestore ==> final(self).phase == HotkeyPhase::Done
                    && finishes(step, Err(old(self).pending_error@))
            }),
    {
        match self.phase {
            HotkeyPhase::Start => {
                if str_eq(self.old_hotkey.as_str(), self.new_hotkey.as_str()) {
                    self.phase = HotkeyPhase::AwaitSameCheck;
                    HotkeyStep::Perform(HotkeyEffect::IsRegistered { shortcut: self.new_hotkey.clone() })
                } else {
                    self.phase = HotkeyPhase::AwaitOldCheck;
                    HotkeyStep::Perform(HotkeyEffect::IsRegistered { shortcut: self.old_hotkey.clone() })
                }
            },
            HotkeyPhase::AwaitSameCheck => {
                if let HotkeyOutcome::Registered(true) = outcome {
                    self.phase = HotkeyPhase::Done;
                    HotkeyStep::Finish(Ok(()))
                } else {
                    self.phase = HotkeyPhase::AwaitSameRegister;
                    HotkeyStep::Perform(HotkeyEffect::Register { shortcut: self.new_hotkey.clone() })
                }
            },
            HotkeyPhase::AwaitSameRegister => {
                self.phase = HotkeyPhase::Done;
                match outcome {
                    HotkeyOutcome::Completed(Err(e)) => HotkeyStep::Finish(Err(e)),
                    _ => HotkeyStep::Finish(Ok(())),
                }
            },
            HotkeyPhase::AwaitOldCheck => {
                if let HotkeyOutcome::Registered(true) = outcome {
                    self.old_was_registered = true;
                    self.phase = HotkeyPhase::AwaitUnregister;
                    HotkeyStep::Perform(HotkeyEffect::Unregister { shortcut: self.old_hotkey.clone() })
                } else {
                    self.old_was_registered = false;
                    self.phase = HotkeyPhase::AwaitRegister;
                    HotkeyStep::Perform(HotkeyEffect::Register { shortcut: self.new_hotkey.clone() })
                }
            },
            HotkeyPhase::AwaitUnregister => {
                match outcome {
                    HotkeyOutcome::Completed(Err(e)) => {
                        self.phase = HotkeyPhase::Done;
                        HotkeyStep::Finish(Err(e))
                    },
                    _ => {
                        self.phase = HotkeyPhase::AwaitRegister;
                        HotkeyStep::Perform(HotkeyEffect::Register { shortcut: self.new_hotkey.clone() })
                    },
                }
            },
            HotkeyPhase::AwaitRegister => {
                match outcome {
                    HotkeyOutcome::Completed(Err(e)) => {
                        if self.old_was_registered {
                            self.pending_error = e;
                            self.phase = HotkeyPhase::AwaitRestore;
                            HotkeyStep::Perform(HotkeyEffect::Register { shortcut: self.old_hotkey.clone() })
                        } else {
                            self.phase = HotkeyPhase::Done;
                            HotkeyStep::Finish(Err(e))
                        }
                    },
                    _ => {
                        self.phase = HotkeyPhase::Done;
                        HotkeyStep::Finish(Ok(()))
                    },
                }
            },
            _ => {
                self.phase = HotkeyPhase::Done;
                HotkeyStep::Finish(Err(self.pending_error.clone()))
            },
        }
    }
}

} // verus!
