use echoes::{
    handle_event, is_shortcut_active, KeyCode, KeyTransition, KeyboardEvent, KeyboardListener,
    ListenerState, RecordingShortcut, ShortcutMode,
};

fn hold_ctrl_a() -> RecordingShortcut {
    RecordingShortcut::new(ShortcutMode::Hold, KeyCode::A, vec![KeyCode::ControlLeft])
}

fn toggle_ctrl_a() -> RecordingShortcut {
    RecordingShortcut::new(ShortcutMode::Toggle, KeyCode::A, vec![KeyCode::ControlLeft])
}

#[test]
fn hold_chord_press_emits_pressed_once() {
    let mut listener = KeyboardListener::new(hold_ctrl_a());
    assert_eq!(listener.handle_key(KeyTransition::Press(KeyCode::ControlLeft)), None);
    assert_eq!(
        listener.handle_key(KeyTransition::Press(KeyCode::A)),
        Some(KeyboardEvent::RecordingKeyPressed)
    );
    assert!(listener.is_recording_active());
    // Key repeat while held: nothing more is reported.
    assert_eq!(listener.handle_key(KeyTransition::Press(KeyCode::A)), None);
    assert_eq!(listener.handle_key(KeyTransition::Press(KeyCode::ControlLeft)), None);
    assert!(listener.is_recording_active());
}

#[test]
fn hold_release_of_any_chord_key_emits_released_once() {
    for first in [KeyCode::A, KeyCode::ControlLeft] {
        let second = if first == KeyCode::A { KeyCode::ControlLeft } else { KeyCode::A };
        let mut listener = KeyboardListener::new(hold_ctrl_a());
        listener.handle_key(KeyTransition::Press(KeyCode::ControlLeft));
        listener.handle_key(KeyTransition::Press(KeyCode::A));
        assert_eq!(
            listener.handle_key(KeyTransition::Release(first)),
            Some(KeyboardEvent::RecordingKeyReleased)
        );
        assert!(!listener.is_recording_active());
        assert_eq!(listener.handle_key(KeyTransition::Release(second)), None);
    }
}

#[test]
fn hold_extra_modifier_cancels() {
    let mut listener = KeyboardListener::new(hold_ctrl_a());
    listener.handle_key(KeyTransition::Press(KeyCode::ControlLeft));
    listener.handle_key(KeyTransition::Press(KeyCode::A));
    assert_eq!(
        listener.handle_key(KeyTransition::Press(KeyCode::ShiftLeft)),
        Some(KeyboardEvent::OtherKeyPressed)
    );
    assert!(!listener.is_recording_active());
}

#[test]
fn hold_plain_key_does_not_cancel() {
    let mut listener = KeyboardListener::new(hold_ctrl_a());
    listener.handle_key(KeyTransition::Press(KeyCode::ControlLeft));
    listener.handle_key(KeyTransition::Press(KeyCode::A));
    assert_eq!(listener.handle_key(KeyTransition::Press(KeyCode::B)), None);
    assert!(listener.is_recording_active());
}

#[test]
fn toggle_two_presses_emit_pressed_then_released() {
    let mut listener = KeyboardListener::new(toggle_ctrl_a());
    let mut events = Vec::new();
    for round in 0..2 {
        for event in [
            KeyTransition::Press(KeyCode::ControlLeft),
            KeyTransition::Press(KeyCode::A),
            KeyTransition::Release(KeyCode::A),
            KeyTransition::Release(KeyCode::ControlLeft),
        ] {
            if let Some(reported) = listener.handle_key(event) {
                events.push((round, reported));
            }
        }
    }
    assert_eq!(
        events,
        vec![(0, KeyboardEvent::RecordingKeyPressed), (1, KeyboardEvent::RecordingKeyReleased)]
    );
}

#[test]
fn chord_with_extra_modifier_is_not_active() {
    let shortcut = hold_ctrl_a();
    assert!(is_shortcut_active(&[KeyCode::ControlLeft, KeyCode::A], &shortcut));
    assert!(is_shortcut_active(&[KeyCode::A, KeyCode::B, KeyCode::ControlLeft], &shortcut));
    assert!(!is_shortcut_active(
        &[KeyCode::ControlLeft, KeyCode::ShiftLeft, KeyCode::A],
        &shortcut
    ));
    assert!(!is_shortcut_active(&[KeyCode::ControlLeft], &shortcut));
    assert!(!is_shortcut_active(&[KeyCode::A], &shortcut));
    assert!(!is_shortcut_active(&[], &shortcut));
}

#[test]
fn chord_without_modifiers_takes_no_other_modifier() {
    let shortcut = RecordingShortcut::default();
    assert!(is_shortcut_active(&[KeyCode::ControlLeft], &shortcut));
    assert!(is_shortcut_active(&[KeyCode::B, KeyCode::ControlLeft], &shortcut));
    assert!(!is_shortcut_active(&[KeyCode::ShiftLeft, KeyCode::ControlLeft], &shortcut));
    assert!(!is_shortcut_active(&[KeyCode::ControlRight], &shortcut));
    let plain = RecordingShortcut::new(ShortcutMode::Hold, KeyCode::A, vec![]);
    assert!(is_shortcut_active(&[KeyCode::A], &plain));
    assert!(!is_shortcut_active(&[KeyCode::ShiftLeft, KeyCode::A], &plain));
}

#[test]
fn hold_chord_without_modifiers_is_cancelled_by_a_modifier() {
    let mut listener =
        KeyboardListener::new(RecordingShortcut::new(ShortcutMode::Hold, KeyCode::A, vec![]));
    assert_eq!(
        listener.handle_key(KeyTransition::Press(KeyCode::A)),
        Some(KeyboardEvent::RecordingKeyPressed)
    );
    assert_eq!(
        listener.handle_key(KeyTransition::Press(KeyCode::ShiftLeft)),
        Some(KeyboardEvent::OtherKeyPressed)
    );
    assert!(!listener.is_recording_active());
    // The release that follows reports nothing more.
    assert_eq!(listener.handle_key(KeyTransition::Release(KeyCode::A)), None);
}

#[test]
fn modifier_held_before_a_chord_without_modifiers_keeps_it_off() {
    let mut listener =
        KeyboardListener::new(RecordingShortcut::new(ShortcutMode::Toggle, KeyCode::A, vec![]));
    assert_eq!(listener.handle_key(KeyTransition::Press(KeyCode::ShiftLeft)), None);
    assert_eq!(listener.handle_key(KeyTransition::Press(KeyCode::A)), None);
    assert!(!listener.is_recording_active());
}

#[test]
fn recording_modifiers_only_never_lists_the_main_key() {
    let mut listener = KeyboardListener::new(hold_ctrl_a());
    listener.start_recording_shortcut();
    listener.handle_key(KeyTransition::Press(KeyCode::ControlLeft));
    listener.handle_key(KeyTransition::Press(KeyCode::ControlRight));
    listener.handle_key(KeyTransition::Release(KeyCode::ControlLeft));
    assert_eq!(
        listener.handle_key(KeyTransition::Release(KeyCode::ControlRight)),
        Some(KeyboardEvent::ShortcutRecorded(RecordingShortcut::new(
            ShortcutMode::Hold,
            KeyCode::ControlLeft,
            vec![],
        )))
    );
}

#[test]
fn recording_ctrl_shift_a_yields_chord() {
    let mut listener = KeyboardListener::new(hold_ctrl_a());
    listener.start_recording_shortcut();
    assert!(listener.is_recording_shortcut());
    assert_eq!(listener.handle_key(KeyTransition::Press(KeyCode::ControlLeft)), None);
    assert_eq!(listener.handle_key(KeyTransition::Press(KeyCode::ShiftLeft)), None);
    assert_eq!(listener.handle_key(KeyTransition::Press(KeyCode::A)), None);
    assert_eq!(listener.handle_key(KeyTransition::Release(KeyCode::ControlLeft)), None);
    assert_eq!(listener.handle_key(KeyTransition::Release(KeyCode::ShiftLeft)), None);
    assert_eq!(
        listener.handle_key(KeyTransition::Release(KeyCode::A)),
        Some(KeyboardEvent::ShortcutRecorded(RecordingShortcut::new(
            ShortcutMode::Hold,
            KeyCode::A,
            vec![KeyCode::ControlLeft, KeyCode::ShiftLeft],
        )))
    );
    assert!(!listener.is_recording_shortcut());
    // The configured chord is whatever it was.
    assert_eq!(listener.shortcut(), &hold_ctrl_a());
}

#[test]
fn escape_cancels_recording_and_keeps_shortcut() {
    let mut listener = KeyboardListener::new(toggle_ctrl_a());
    listener.start_recording_shortcut();
    listener.handle_key(KeyTransition::Press(KeyCode::ShiftLeft));
    assert_eq!(
        listener.handle_key(KeyTransition::Press(KeyCode::Escape)),
        Some(KeyboardEvent::RecordingCancelled)
    );
    assert!(!listener.is_recording_shortcut());
    assert_eq!(listener.shortcut(), &toggle_ctrl_a());
    // Back in normal operation, with no key counted as down.
    assert_eq!(listener.handle_key(KeyTransition::Press(KeyCode::ControlLeft)), None);
    assert_eq!(
        listener.handle_key(KeyTransition::Press(KeyCode::A)),
        Some(KeyboardEvent::RecordingKeyPressed)
    );
}

#[test]
fn release_without_capture_reports_nothing() {
    let mut listener = KeyboardListener::new(hold_ctrl_a());
    listener.start_recording_shortcut();
    assert_eq!(listener.handle_key(KeyTransition::Release(KeyCode::A)), None);
    assert!(listener.is_recording_shortcut());
}

#[test]
fn stop_recording_shortcut_forgets_captured_keys() {
    let mut listener = KeyboardListener::new(hold_ctrl_a());
    listener.start_recording_shortcut();
    listener.handle_key(KeyTransition::Press(KeyCode::B));
    listener.stop_recording_shortcut();
    assert!(!listener.is_recording_shortcut());
    listener.start_recording_shortcut();
    listener.handle_key(KeyTransition::Release(KeyCode::B));
    listener.handle_key(KeyTransition::Press(KeyCode::C));
    assert_eq!(
        listener.handle_key(KeyTransition::Release(KeyCode::C)),
        Some(KeyboardEvent::ShortcutRecorded(RecordingShortcut::new(
            ShortcutMode::Hold,
            KeyCode::C,
            vec![],
        )))
    );
}

#[test]
fn update_shortcut_replaces_chord() {
    let mut listener = KeyboardListener::new(hold_ctrl_a());
    listener.update_shortcut(RecordingShortcut::new(ShortcutMode::Hold, KeyCode::F9, vec![]));
    assert_eq!(listener.handle_key(KeyTransition::Press(KeyCode::ControlLeft)), None);
    assert_eq!(listener.handle_key(KeyTransition::Press(KeyCode::A)), None);
    assert_eq!(listener.handle_key(KeyTransition::Release(KeyCode::ControlLeft)), None);
    assert_eq!(
        listener.handle_key(KeyTransition::Press(KeyCode::F9)),
        Some(KeyboardEvent::RecordingKeyPressed)
    );
}

#[test]
fn free_function_steps_state() {
    let shortcut = hold_ctrl_a();
    let mut state = ListenerState::new();
    assert_eq!(handle_event(KeyTransition::Press(KeyCode::A), &shortcut, &mut state), None);
    assert_eq!(state.pressed_keys(), &vec![KeyCode::A]);
    // A second press of a key that is down does not list it twice.
    assert_eq!(handle_event(KeyTransition::Press(KeyCode::A), &shortcut, &mut state), None);
    assert_eq!(state.pressed_keys(), &vec![KeyCode::A]);
    assert_eq!(
        handle_event(KeyTransition::Press(KeyCode::ControlLeft), &shortcut, &mut state),
        Some(KeyboardEvent::RecordingKeyPressed)
    );
    assert!(state.recording_active());
    assert_eq!(
        handle_event(KeyTransition::Release(KeyCode::A), &shortcut, &mut state),
        Some(KeyboardEvent::RecordingKeyReleased)
    );
    assert_eq!(state.pressed_keys(), &vec![KeyCode::ControlLeft]);
}
