use langra::gesture::{GestureEvent, GestureState, DEBOUNCE_WINDOW_MS};

fn held_state() -> GestureState {
    let mut s = GestureState::new();
    assert!(!s.on_event(GestureEvent::ModifierDown));
    s
}

#[test]
fn gesture_starts_idle() {
    let s = GestureState::new();
    assert!(!s.modifier_held);
    assert_eq!(s.repeat_count, 0);
    assert_eq!(s.last_press_ms, None);
}

#[test]
fn gesture_single_press_does_not_fire() {
    let mut s = held_state();
    assert!(!s.on_event(GestureEvent::QualifyingPress { time_ms: 1000 }));
    assert_eq!(s.repeat_count, 1);
    assert_eq!(s.last_press_ms, Some(1000));
}

#[test]
fn gesture_double_press_within_window_fires_once() {
    // Two qualifying presses 300 ms apart with the modifier held: exactly one
    // fire, and the count is back at zero immediately after.
    let mut s = held_state();
    assert!(!s.on_event(GestureEvent::QualifyingPress { time_ms: 1000 }));
    assert!(s.on_event(GestureEvent::QualifyingPress { time_ms: 1300 }));
    assert_eq!(s.repeat_count, 0);
    assert_eq!(s.last_press_ms, None);
    assert!(s.modifier_held);
}

#[test]
fn gesture_slow_second_press_counts_as_fresh_first() {
    // A second press 600 ms after the first is a fresh first press.
    let mut s = held_state();
    assert!(!s.on_event(GestureEvent::QualifyingPress { time_ms: 1000 }));
    assert!(!s.on_event(GestureEvent::QualifyingPress { time_ms: 1600 }));
    assert_eq!(s.repeat_count, 1);
    assert_eq!(s.last_press_ms, Some(1600));
}

#[test]
fn gesture_fires_exactly_at_window_boundary() {
    let mut s = held_state();
    assert!(!s.on_event(GestureEvent::QualifyingPress { time_ms: 0 }));
    assert!(s.on_event(GestureEvent::QualifyingPress { time_ms: DEBOUNCE_WINDOW_MS }));
    let mut s = held_state();
    assert!(!s.on_event(GestureEvent::QualifyingPress { time_ms: 0 }));
    assert!(!s.on_event(GestureEvent::QualifyingPress { time_ms: DEBOUNCE_WINDOW_MS + 1 }));
}

#[test]
fn gesture_third_press_after_fire_restarts_counting() {
    let mut s = held_state();
    assert!(!s.on_event(GestureEvent::QualifyingPress { time_ms: 1000 }));
    assert!(s.on_event(GestureEvent::QualifyingPress { time_ms: 1200 }));
    // The press right after a fire cannot fire by itself.
    assert!(!s.on_event(GestureEvent::QualifyingPress { time_ms: 1250 }));
    assert_eq!(s.repeat_count, 1);
    // But it arms the detector again.
    assert!(s.on_event(GestureEvent::QualifyingPress { time_ms: 1350 }));
}

#[test]
fn gesture_modifier_release_resets_count() {
    // Releasing the modifier resets the pending count and timestamp, and a
    // press pair after re-holding still needs both presses.
    let mut s = held_state();
    assert!(!s.on_event(GestureEvent::QualifyingPress { time_ms: 1000 }));
    assert!(!s.on_event(GestureEvent::ModifierUp));
    assert_eq!(s.repeat_count, 0);
    assert_eq!(s.last_press_ms, None);
    assert!(!s.modifier_held);
    assert!(!s.on_event(GestureEvent::ModifierDown));
    assert!(!s.on_event(GestureEvent::QualifyingPress { time_ms: 1100 }));
    assert!(s.on_event(GestureEvent::QualifyingPress { time_ms: 1200 }));
}

#[test]
fn gesture_press_without_modifier_is_ignored() {
    let mut s = GestureState::new();
    assert!(!s.on_event(GestureEvent::QualifyingPress { time_ms: 1000 }));
    assert_eq!(s.repeat_count, 0);
    assert_eq!(s.last_press_ms, None);
}

#[test]
fn gesture_other_keys_are_transparent() {
    let mut s = held_state();
    assert!(!s.on_event(GestureEvent::QualifyingPress { time_ms: 1000 }));
    let before = s;
    assert!(!s.on_event(GestureEvent::OtherKey));
    assert_eq!(s, before);
}

#[test]
fn gesture_backwards_clock_saturates_to_zero_elapsed() {
    // A monotonic clock never goes backwards; if a platform ever reported it,
    // the elapsed time saturates at zero and the pair still fires.
    let mut s = held_state();
    assert!(!s.on_event(GestureEvent::QualifyingPress { time_ms: 1000 }));
    assert!(s.on_event(GestureEvent::QualifyingPress { time_ms: 900 }));
}
