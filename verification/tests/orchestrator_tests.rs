use langra::orchestrator::{
    is_credential_error, Cycle, CycleAction, CycleEvent, CyclePhase, Mode, ModeState,
};

fn started(mode: Mode) -> Cycle {
    let (c, actions) = Cycle::start(mode);
    assert_eq!(actions.len(), 3);
    assert!(matches!(actions[0], CycleAction::ShowWindow));
    assert!(matches!(actions[1], CycleAction::Settle(50)));
    assert!(matches!(actions[2], CycleAction::QueryCredentials));
    c
}

fn reach_backend(mode: Mode, text: &str, detected: Option<&str>) -> (Cycle, Vec<CycleAction>) {
    let mut c = started(mode);
    c.step(CycleEvent::CredentialsChecked { has_api_key: true, has_access_token: false });
    c.step(CycleEvent::ClipboardRead(text.to_string()));
    let a = c.step(CycleEvent::LanguageDetected(detected.map(|s| s.to_string())));
    (c, a)
}

#[test]
fn mode_state_defaults_to_translate() {
    let m = ModeState::new();
    assert_eq!(m.get_mode(), "translate");
    assert_eq!(m.effective_mode(), Mode::Translate);
}

#[test]
fn mode_state_enhance_selects_correction() {
    let mut m = ModeState::new();
    m.set_mode("enhance".to_string());
    assert_eq!(m.get_mode(), "enhance");
    assert_eq!(m.effective_mode(), Mode::Correct);
    m.set_mode("translate".to_string());
    assert_eq!(m.effective_mode(), Mode::Translate);
}

#[test]
fn cycle_missing_credentials_stops_with_signal() {
    let mut c = started(Mode::Translate);
    let a = c.step(CycleEvent::CredentialsChecked { has_api_key: false, has_access_token: false });
    assert_eq!(a.len(), 1);
    assert!(matches!(a[0], CycleAction::EmitCredentialsMissing));
    assert_eq!(c.phase, CyclePhase::Finished);
}

#[test]
fn cycle_access_token_alone_suffices() {
    let mut c = started(Mode::Translate);
    let a = c.step(CycleEvent::CredentialsChecked { has_api_key: false, has_access_token: true });
    assert_eq!(a.len(), 1);
    assert!(matches!(a[0], CycleAction::ReadClipboard));
    assert_eq!(c.phase, CyclePhase::ReadingClipboard);
}

#[test]
fn cycle_empty_clipboard_reports_no_selection() {
    let mut c = started(Mode::Translate);
    c.step(CycleEvent::CredentialsChecked { has_api_key: true, has_access_token: false });
    let a = c.step(CycleEvent::ClipboardRead(String::new()));
    assert_eq!(a.len(), 1);
    assert!(matches!(&a[0], CycleAction::EmitError(m) if m == "No text selected"));
    assert_eq!(c.phase, CyclePhase::Finished);
}

#[test]
fn cycle_captured_text_goes_to_detection() {
    let mut c = started(Mode::Translate);
    c.step(CycleEvent::CredentialsChecked { has_api_key: true, has_access_token: false });
    let a = c.step(CycleEvent::ClipboardRead("Hallo Welt".to_string()));
    assert_eq!(a.len(), 1);
    assert!(matches!(&a[0], CycleAction::DetectLanguage(t) if t == "Hallo Welt"));
    assert_eq!(c.phase, CyclePhase::Detecting);
}

#[test]
fn cycle_detection_result_starts_backend_call() {
    let (c, a) = reach_backend(Mode::Translate, "some text", Some("en"));
    assert_eq!(a.len(), 3);
    assert!(matches!(&a[0], CycleAction::EmitStart { language, original }
        if language == "en" && original == "some text"));
    assert!(matches!(a[1], CycleAction::Settle(50)));
    assert!(matches!(&a[2], CycleAction::CallBackend { mode, language, text }
        if *mode == Mode::Translate && language == "en" && text == "some text"));
    assert_eq!(c.phase, CyclePhase::AwaitingBackend);
}

#[test]
fn cycle_failed_detection_uses_local_fallback() {
    // The captured text holds a German umlaut, so the fallback says German.
    let (c, a) = reach_backend(Mode::Correct, "Grüße aus Berlin", None);
    assert_eq!(c.language, "de");
    assert!(matches!(&a[0], CycleAction::EmitStart { language, .. } if language == "de"));
    let (c, _) = reach_backend(Mode::Correct, "plain english", None);
    assert_eq!(c.language, "en");
}

#[test]
fn cycle_backend_success_completes() {
    let (mut c, _) = reach_backend(Mode::Translate, "text", Some("en"));
    let a = c.step(CycleEvent::BackendSucceeded);
    assert_eq!(a.len(), 1);
    assert!(matches!(a[0], CycleAction::EmitComplete));
    assert_eq!(c.phase, CyclePhase::Finished);
}

#[test]
fn cycle_unauthorized_backend_clears_credentials() {
    // A 401-style failure makes the orchestrator wipe the stored credentials
    // and emit the missing-credentials signal, not just the error.
    let (mut c, _) = reach_backend(Mode::Translate, "text", Some("en"));
    let a = c.step(CycleEvent::BackendFailed("backend returned 401".to_string()));
    assert_eq!(a.len(), 3);
    assert!(matches!(a[0], CycleAction::ClearCredentials));
    assert!(matches!(a[1], CycleAction::EmitCredentialsMissing));
    assert!(matches!(&a[2], CycleAction::EmitError(m) if m == "backend returned 401"));
    assert_eq!(c.phase, CyclePhase::Finished);
}

#[test]
fn cycle_other_backend_failure_only_reports() {
    let (mut c, _) = reach_backend(Mode::Translate, "text", Some("en"));
    let a = c.step(CycleEvent::BackendFailed("connection timed out".to_string()));
    assert_eq!(a.len(), 1);
    assert!(matches!(&a[0], CycleAction::EmitError(m) if m == "connection timed out"));
}

#[test]
fn cycle_correction_mode_never_clears_credentials() {
    let (mut c, _) = reach_backend(Mode::Correct, "text", Some("en"));
    let a = c.step(CycleEvent::BackendFailed("backend returned 401".to_string()));
    assert_eq!(a.len(), 1);
    assert!(matches!(&a[0], CycleAction::EmitError(m) if m == "backend returned 401"));
}

#[test]
fn cycle_ignores_events_of_other_phases() {
    let mut c = started(Mode::Translate);
    let a = c.step(CycleEvent::BackendSucceeded);
    assert!(a.is_empty());
    assert_eq!(c.phase, CyclePhase::CheckingCredentials);
}

#[test]
fn credential_error_recognises_each_pattern() {
    assert!(is_credential_error("relative URL without a base"));
    assert!(is_credential_error("Invalid Azure credentials supplied"));
    assert!(is_credential_error("Invalid OpenAI credentials supplied"));
    assert!(is_credential_error("status code 401"));
    assert!(is_credential_error("status code 403"));
    assert!(!is_credential_error("connection reset by peer"));
    assert!(!is_credential_error("status code 500"));
    assert!(!is_credential_error(""));
}
