use langra::injector::{
    copy_chord, injection_outcome, insert_result_plan, paste_chord, replace_input_plan, ChordKey,
    InjectError, InsertAction, KeyMotion, KeyStep,
};
use langra::tracker::FocusError;

fn step(key: ChordKey, motion: KeyMotion) -> KeyStep {
    KeyStep { key, motion }
}

#[test]
fn injector_copy_chord_releases_modifiers_then_strikes() {
    let v = copy_chord();
    assert_eq!(
        v,
        vec![
            step(ChordKey::Control, KeyMotion::Release),
            step(ChordKey::Alt, KeyMotion::Release),
            step(ChordKey::Shift, KeyMotion::Release),
            step(ChordKey::Control, KeyMotion::Press),
            step(ChordKey::CopyKey, KeyMotion::Press),
            step(ChordKey::CopyKey, KeyMotion::Release),
            step(ChordKey::Control, KeyMotion::Release),
        ]
    );
}

#[test]
fn injector_paste_chord_is_one_burst() {
    let v = paste_chord();
    assert_eq!(
        v,
        vec![
            step(ChordKey::Control, KeyMotion::Press),
            step(ChordKey::PasteKey, KeyMotion::Press),
            step(ChordKey::PasteKey, KeyMotion::Release),
            step(ChordKey::Control, KeyMotion::Release),
        ]
    );
}

#[test]
fn injector_empty_text_is_a_no_op() {
    // Injecting empty text issues no clipboard write and no synthetic key
    // event at all.
    let v = replace_input_plan("");
    assert!(v.is_empty());
}

#[test]
fn injector_nonempty_text_writes_settles_pastes() {
    let v = replace_input_plan("resultat");
    assert_eq!(v.len(), 3);
    assert!(matches!(&v[0], InsertAction::SetClipboardText(t) if t == "resultat"));
    assert!(matches!(v[1], InsertAction::Settle(50)));
    assert!(matches!(v[2], InsertAction::SendPasteChord));
}

#[test]
fn injector_insert_plan_fails_without_previous_window() {
    assert_eq!(insert_result_plan(false, "text").err(), Some(FocusError::NoPreviousWindow));
}

#[test]
fn injector_insert_plan_refocuses_then_pastes() {
    let v = insert_result_plan(true, "text").unwrap();
    assert_eq!(v.len(), 5);
    assert!(matches!(v[0], InsertAction::FocusPreviousWindow));
    assert!(matches!(v[1], InsertAction::Settle(100)));
    assert!(matches!(&v[2], InsertAction::SetClipboardText(t) if t == "text"));
    assert!(matches!(v[3], InsertAction::Settle(50)));
    assert!(matches!(v[4], InsertAction::SendPasteChord));
}

#[test]
fn injector_insert_plan_empty_text_only_refocuses() {
    let v = insert_result_plan(true, "").unwrap();
    assert_eq!(v.len(), 2);
    assert!(matches!(v[0], InsertAction::FocusPreviousWindow));
    assert!(matches!(v[1], InsertAction::Settle(100)));
}

#[test]
fn injector_injection_outcome_demands_every_event() {
    assert!(injection_outcome(4, 4).is_ok());
    assert_eq!(injection_outcome(3, 4).err(), Some(InjectError::InjectionIncomplete));
    assert_eq!(injection_outcome(0, 4).err(), Some(InjectError::InjectionIncomplete));
}
