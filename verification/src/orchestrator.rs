//! Capture/insert orchestrator: the decision core of one translation cycle.
//!
//! A cycle is a state machine.  The driver outside the library performs each
//! returned action — showing the window, sleeping, reading the clipboard,
//! calling the translation backend — and feeds the outcome back in as the
//! next event.  Every decision the original flow makes lives here: when the
//! missing-credentials signal is emitted, when the cycle stops because
//! nothing was selected, which language the fallback assigns, which backend
//! mode runs, and when a backend failure wipes the stored credentials.

use vstd::prelude::*;

verus! {

use crate::language::spec_fallback_lang;
use crate::language::detect_language_fallback;
use crate::strutil::spec_contains;
use crate::strutil::contains_sub;
use crate::strutil::str_eq;

/// What the backend is asked to do with the captured text.
#[derive(Clone, Copy, Debug, PartialEq, Eq, Structural)]
pub enum Mode {
    /// Translate between German and English.
    Translate,
    /// Correct grammar and spelling in place.
    Correct,
}

/// The current response mode, kept as the raw persisted string.
#[derive(Clone, Debug)]
pub struct ModeState {
    /// The stored mode name; empty means the default.
    pub current: String,
}

impl ModeState {
    /// The default state: no mode stored yet.
    pub fn new() -> (m: ModeState)
        ensures
            m.current@ == Seq::<char>::empty(),
    {
        ModeState { current: String::new() }
    }

    /// Stores a new mode name.
    pub fn set_mode(&mut self, mode: String)
        ensures
            final(self).current == mode,
    {
        self.current = mode;
    }

    /// The stored mode name, with the default standing in while none is set.
    pub fn get_mode(&self) -> (m: String)
        ensures
            self.current@.len() == 0 ==> m@ == "translate"@,
            self.current@.len() > 0 ==> m@ == self.current@,
    {
        if self.current.as_str().is_empty() {
            "translate".to_owned()
        } else {
            self.current.clone()
        }
    }

    /// The mode a new cycle runs in: correction exactly when the stored name
    /// says so, translation otherwise.
    pub fn effective_mode(&self) -> (m: Mode)
        ensures
            m == Mode::Correct <==> self.current@ == "enhance"@,
    {
        if str_eq(self.current.as_str(), "enhance") {
            Mode::Correct
        } else {
            Mode::Translate
        }
    }
}

/// Backend failures that mean the stored credentials are bad, judged from
/// the failure message the way the flow does it.
pub open spec fn spec_is_credential_error(m: Seq<char>) -> bool {
    ||| spec_contains(m, "relative URL without a base"@)
    ||| spec_contains(m, "Invalid Azure credentials"@)
    ||| spec_contains(m, "Invalid OpenAI credentials"@)
    ||| spec_contains(m, "401"@)
    ||| spec_contains(m, "403"@)
}

/// Whether a backend failure message points at bad credentials.
pub fn is_credential_error(msg: &str) -> (r: bool)
    ensures
        r == spec_is_credential_error(msg@),
{
    contains_sub(msg, "relative URL without a base") || contains_sub(
        msg,
        "Invalid Azure credentials",
    ) || contains_sub(msg, "Invalid OpenAI credentials") || contains_sub(msg, "401")
        || contains_sub(msg, "403")
}

/// Where a cycle stands.
#[derive(Clone, Copy, Debug, PartialEq, Eq, Structural)]
pub enum CyclePhase {
    /// Waiting to hear whether credentials exist.
    CheckingCredentials,
    /// Waiting for the captured clipboard text.
    ReadingClipboard,
    /// Waiting for the language detector.
    Detecting,
    /// Waiting for the backend call to finish.
    AwaitingBackend,
    /// The cycle is over.
    Finished,
}

/// An outcome the driver reports back to the cycle.
#[derive(Clone, Debug)]
pub enum CycleEvent {
    /// Whether API credentials and a stored access token exist.
    CredentialsChecked { has_api_key: bool, has_access_token: bool },
    /// The text found on the clipboard after the gesture's own copy.
    ClipboardRead(String),
    /// What the remote language detector said; `None` when it failed and the
    /// local fallback must decide.
    LanguageDetected(Option<String>),
    /// The backend call delivered a complete result.
    BackendSucceeded,
    /// The backend call failed with this message.
    BackendFailed(String),
}

/// An effect the driver must perform for the cycle.
#[derive(Clone, Debug)]
pub enum CycleAction {
    /// Show the translator window immediately.
    ShowWindow,
    /// Sleep the given number of milliseconds.
    Settle(u64),
    /// Find out whether credentials exist and report back.
    QueryCredentials,
    /// Emit the missing-credentials signal to the UI.
    EmitCredentialsMissing,
    /// Read the clipboard and report its text back.
    ReadClipboard,
    /// Emit a translation-error signal with this message.
    EmitError(String),
    /// Run the language detector on this text and report back.
    DetectLanguage(String),
    /// Emit the translation-start signal.
    EmitStart { language: String, original: String },
    /// Run the backend in this mode and report back.
    CallBackend { mode: Mode, language: String, text: String },
    /// Wipe the stored API credentials.
    ClearCredentials,
    /// Emit the translation-complete signal.
    EmitComplete,
}

/// Settle delay after showing the window, in milliseconds.
pub const UI_SETTLE_MS: u64 = 50;

/// Settle delay between the start signal and the backend call, in
/// milliseconds.
pub const START_SETTLE_MS: u64 = 50;

/// One translation cycle.
#[derive(Clone, Debug)]
pub struct Cycle {
    /// Where the cycle stands.
    pub phase: CyclePhase,
    /// The mode this cycle runs in, read once at start.
    pub mode: Mode,
    /// The captured text, once the clipboard was read.
    pub text: String,
    /// The language of the captured text, once detected.
    pub language: String,
}

impl Cycle {
    /// Whether an event belongs to the phase the cycle is in.
    pub open spec fn spec_event_fits(p: CyclePhase, e: CycleEvent) -> bool {
        match e {
            CycleEvent::CredentialsChecked { .. } => p == CyclePhase::CheckingCredentials,
            CycleEvent::ClipboardRead(_) => p == CyclePhase::ReadingClipboard,
            CycleEvent::LanguageDetected(_) => p == CyclePhase::Detecting,
            CycleEvent::BackendSucceeded => p == CyclePhase::AwaitingBackend,
            CycleEvent::BackendFailed(_) => p == CyclePhase::AwaitingBackend,
        }
    }

    /// Starts a cycle: the window is shown at once, and after a short settle
    /// the driver must report whether credentials exist.
    pub fn start(mode: Mode) -> (r: (Cycle, Vec<CycleAction>))
        ensures
            r.0.phase == CyclePhase::CheckingCredentials,
            r.0.mode == mode,
            r.0.text@ == Seq::<char>::empty(),
            r.0.language@ == Seq::<char>::empty(),
            r.1@.len() == 3,
            r.1@[0] == CycleAction::ShowWindow,
            r.1@[1] == CycleAction::Settle(UI_SETTLE_MS),
            r.1@[2] == CycleAction::QueryCredentials,
    {
        let cycle = Cycle {
            phase: CyclePhase::CheckingCredentials,
            mode,
            text: String::new(),
            language: String::new(),
        };
        let mut actions: Vec<CycleAction> = Vec::new();
        actions.push(CycleAction::ShowWindow);
        actions.push(CycleAction::Settle(UI_SETTLE_MS));
        actions.push(CycleAction::QueryCredentials);
        (cycle, actions)
    }

    /// Feeds the outcome of the last action back in and decides what happens
    /// next.  An event that does not belong to the current phase changes
    /// nothing.
    pub fn step(&mut self, e: CycleEvent) -> (actions: Vec<CycleAction>)
        ensures
            final(self).mode == old(self).mode,
            !Cycle::spec_event_fits(old(self).phase, e) ==> *final(self) == *old(self)
                && actions@.len() == 0,
            old(self).phase == CyclePhase::CheckingCredentials ==> (e
                matches CycleEvent::CredentialsChecked { has_api_key, has_access_token } ==> {
                &&& final(self).text == old(self).text
                &&& final(self).language == old(self).language
                &&& (if !has_api_key && !has_access_token {
                    &&& final(self).phase == CyclePhase::Finished
                    &&& actions@.len() == 1
                    &&& actions@[0] == CycleAction::EmitCredentialsMissing
                } else {
                    &&& final(self).phase == CyclePhase::ReadingClipboard
                    &&& actions@.len() == 1
                    &&& actions@[0] == CycleAction::ReadClipboard
                })
            }),
            old(self).phase == CyclePhase::ReadingClipboard ==> (e
                matches CycleEvent::ClipboardRead(s) ==> {
                &&& final(self).language == old(self).language
                &&& (if s@.len() == 0 {
                    &&& final(self).phase == CyclePhase::Finished
                    &&& final(self).text == old(self).text
                    &&& actions@.len() == 1
                    &&& (actions@[0] matches CycleAction::EmitError(m) && m@
                        == "No text selected"@)
                } else {
                    &&& final(self).phase == CyclePhase::Detecting
                    &&& final(self).text == s
                    &&& actions@.len() == 1
                    &&& (actions@[0] matches CycleAction::DetectLanguage(t) && t == s)
                })
            }),
            old(self).phase == CyclePhase::Detecting ==> (e matches CycleEvent::LanguageDetected(
                detected,
            ) ==> {
                &&& final(self).phase == CyclePhase::AwaitingBackend
                &&& final(self).text == old(self).text
                &&& (detected matches Some(l) ==> final(self).language == l)
                &&& (detected is None ==> final(self).language@ == spec_fallback_lang(
                    old(self).text@,
                ))
                &&& actions@.len() == 3
                &&& (actions@[0] matches CycleAction::EmitStart { language, original }
                    && language == final(self).language && original == old(self).text)
                &&& actions@[1] == CycleAction::Settle(START_SETTLE_MS)
                &&& (actions@[2] matches CycleAction::CallBackend { mode, language, text } && mode
                    == old(self).mode && language == final(self).language && text == old(
                    self,
                ).text)
            }),
            old(self).phase == CyclePhase::AwaitingBackend ==> (e
                matches CycleEvent::BackendSucceeded ==> {
                &&& *final(self) == Cycle { phase: CyclePhase::Finished, ..*old(self) }
                &&& actions@.len() == 1
                &&& actions@[0] == CycleAction::EmitComplete
            }),
            old(self).phase == CyclePhase::AwaitingBackend ==> (e
                matches CycleEvent::BackendFailed(msg) ==> {
                &&& *final(self) == Cycle { phase: CyclePhase::Finished, ..*old(self) }
                &&& (if old(self).mode == Mode::Translate && spec_is_credential_error(msg@) {
                    &&& actions@.len() == 3
                    &&& actions@[0] == CycleAction::ClearCredentials
                    &&& actions@[1] == CycleAction::EmitCredentialsMissing
                    &&& (actions@[2] matches CycleAction::EmitError(m) && m == msg)
                } else {
                    &&& actions@.len() == 1
                    &&& (actions@[0] matches CycleAction::EmitError(m) && m == msg)
                })
            }),
    {
        let mut actions: Vec<CycleAction> = Vec::new();
        match e {
            CycleEvent::CredentialsChecked { has_api_key, has_access_token } => {
                if self.phase == CyclePhase::CheckingCredentials {
                    if !has_api_key && !has_access_token {
                        self.phase = CyclePhase::Finished;
                        actions.push(CycleAction::EmitCredentialsMissing);
                    } else {
                        self.phase = CyclePhase::ReadingClipboard;
                        actions.push(CycleAction::ReadClipboard);
                    }
                }
            },
            CycleEvent::ClipboardRead(s) => {
                if self.phase == CyclePhase::ReadingClipboard {
                    if s.as_str().is_empty() {
                        self.phase = CyclePhase::Finished;
                        actions.push(CycleAction::EmitError("No text selected".to_owned()));
                    } else {
                        self.phase = CyclePhase::Detecting;
                        actions.push(CycleAction::DetectLanguage(s.clone()));
                        self.text = s;
                    }
                }
            },
            CycleEvent::LanguageDetected(detected) => {
                if self.phase == CyclePhase::Detecting {
                    let language = match detected {
                        Some(l) => l,
                        None => detect_language_fallback(self.text.as_str()),
                    };
                    self.phase = CyclePhase::AwaitingBackend;
                    self.language = language;
                    actions.push(
                        CycleAction::EmitStart {
                            language: self.language.clone(),
                            original: self.text.clone(),
                        },
                    );
                    actions.push(CycleAction::Settle(START_SETTLE_MS));
                    actions.push(
                        CycleAction::CallBackend {
                            mode: self.mode,
                            language: self.language.clone(),
                            text: self.text.clone(),
                        },
                    );
                }
            },
            CycleEvent::BackendSucceeded => {
                if self.phase == CyclePhase::AwaitingBackend {
                    self.phase = CyclePhase::Finished;
                    actions.push(CycleAction::EmitComplete);
                }
            },
            CycleEvent::BackendFailed(msg) => {
                if self.phase == CyclePhase::AwaitingBackend {
                    self.phase = CyclePhase::Finished;
                    if self.mode == Mode::Translate && is_credential_error(msg.as_str()) {
                        actions.push(CycleAction::ClearCredentials);
                        actions.push(CycleAction::EmitCredentialsMissing);
                    }
                    actions.push(CycleAction::EmitError(msg));
                }
            },
        }
        actions
    }
}

} // verus!
