use echoes::conflict::{
    check_accessibility_concerns, check_application_conflict, check_system_table,
    is_easily_accessible, is_universal_modifier, Detector,
};
use echoes::detection::CACHE_LIMIT;
use echoes::{
    check_shortcut_conflicts, has_error, ConflictDetectionSystem, ConflictInfo, ConflictSeverity,
    KeyCode, Platform, RecordingShortcut, ShortcutMode,
};

fn chord(key: KeyCode, modifiers: Vec<KeyCode>) -> RecordingShortcut {
    RecordingShortcut::new(ShortcutMode::Hold, key, modifiers)
}

fn system_error(description: &str) -> ConflictInfo {
    ConflictInfo {
        severity: ConflictSeverity::Error,
        description: description.to_string(),
        suggestion: Some("System shortcuts cannot be overridden".to_string()),
    }
}

#[test]
fn macos_reserved_chords_are_errors() {
    let table = [
        (KeyCode::Q, "Cmd+Q quits applications"),
        (KeyCode::W, "Cmd+W closes windows"),
        (KeyCode::H, "Cmd+H hides applications"),
        (KeyCode::M, "Cmd+M minimizes windows"),
        (KeyCode::Tab, "Cmd+Tab switches applications"),
        (KeyCode::Space, "Cmd+Space opens Spotlight search"),
    ];
    for (key, description) in table {
        let shortcut = chord(key, vec![KeyCode::MetaLeft]);
        let conflicts = check_shortcut_conflicts(&shortcut, Platform::MacOs);
        assert!(!conflicts.is_empty());
        assert_eq!(conflicts[0], system_error(description));
        assert_eq!(check_system_table(&shortcut, Platform::MacOs), Some(system_error(description)));
    }
}

#[test]
fn windows_reserved_chords_are_errors() {
    let table = [
        (KeyCode::L, KeyCode::MetaLeft, "Win+L locks the computer"),
        (KeyCode::D, KeyCode::MetaLeft, "Win+D shows desktop"),
        (KeyCode::Tab, KeyCode::MetaLeft, "Win+Tab opens Task View"),
        (KeyCode::Tab, KeyCode::Alt, "Alt+Tab switches windows"),
    ];
    for (key, modifier, description) in table {
        let conflicts = check_shortcut_conflicts(&chord(key, vec![modifier]), Platform::Windows);
        assert_eq!(conflicts[0], system_error(description));
    }
}

#[test]
fn reserved_chords_belong_to_their_platform() {
    let cmd_q = chord(KeyCode::Q, vec![KeyCode::MetaLeft]);
    assert_eq!(check_system_table(&cmd_q, Platform::Windows), None);
    assert_eq!(check_system_table(&cmd_q, Platform::Other), None);
    assert!(check_shortcut_conflicts(&cmd_q, Platform::Other)
        .iter()
        .all(|c| c.severity != ConflictSeverity::Error));
    let win_l = chord(KeyCode::L, vec![KeyCode::MetaLeft]);
    assert_eq!(check_system_table(&win_l, Platform::MacOs), None);
}

#[test]
fn reserved_lookup_is_exact() {
    // A second modifier, or the right-hand meta key, is another chord.
    let two = chord(KeyCode::Q, vec![KeyCode::MetaLeft, KeyCode::ShiftLeft]);
    assert_eq!(check_system_table(&two, Platform::MacOs), None);
    let right = chord(KeyCode::Q, vec![KeyCode::MetaRight]);
    assert_eq!(check_system_table(&right, Platform::MacOs), None);
    let none = chord(KeyCode::Q, vec![]);
    assert_eq!(check_system_table(&none, Platform::MacOs), None);
}

#[test]
fn common_application_shortcuts_are_warnings() {
    let table = [
        (KeyCode::S, "Save"),
        (KeyCode::C, "Copy"),
        (KeyCode::V, "Paste"),
        (KeyCode::X, "Cut"),
        (KeyCode::Z, "Undo"),
        (KeyCode::A, "Select All"),
        (KeyCode::F, "Find"),
        (KeyCode::N, "New"),
        (KeyCode::O, "Open"),
        (KeyCode::R, "Refresh/Reload"),
    ];
    for (key, action) in table {
        for modifier in [KeyCode::ControlLeft, KeyCode::MetaLeft] {
            let found = check_application_conflict(&chord(key, vec![modifier]));
            assert_eq!(
                found,
                Some(ConflictInfo {
                    severity: ConflictSeverity::Warning,
                    description: format!("Conflicts with {action} in most applications"),
                    suggestion: Some(format!("This will prevent {action} while recording")),
                })
            );
        }
    }
    assert_eq!(check_application_conflict(&chord(KeyCode::S, vec![KeyCode::ShiftLeft])), None);
    assert_eq!(check_application_conflict(&chord(KeyCode::S, vec![KeyCode::ControlRight])), None);
    assert_eq!(
        check_application_conflict(&chord(KeyCode::S, vec![KeyCode::ControlLeft, KeyCode::Alt])),
        None
    );
    assert_eq!(check_application_conflict(&chord(KeyCode::B, vec![KeyCode::ControlLeft])), None);
}

#[test]
fn chords_across_both_hands_are_flagged() {
    let across = chord(KeyCode::P, vec![KeyCode::ControlLeft]);
    assert!(!is_easily_accessible(&across));
    assert_eq!(
        check_accessibility_concerns(&across),
        Some(ConflictInfo {
            severity: ConflictSeverity::Info,
            description: "This combination might be difficult to press with one hand".to_string(),
            suggestion: Some(
                "Consider using keys closer together or fewer modifiers".to_string()
            ),
        })
    );
    assert!(is_easily_accessible(&chord(KeyCode::A, vec![KeyCode::ControlLeft, KeyCode::ShiftLeft])));
    assert!(is_easily_accessible(&chord(KeyCode::P, vec![KeyCode::ShiftRight, KeyCode::Alt])));
    assert!(!is_easily_accessible(&chord(KeyCode::A, vec![KeyCode::ShiftRight])));
    // A main key under neither hand goes with anything.
    assert!(is_easily_accessible(&chord(KeyCode::Space, vec![KeyCode::ControlLeft, KeyCode::ShiftRight])));
    assert_eq!(check_accessibility_concerns(&chord(KeyCode::A, vec![KeyCode::ControlLeft])), None);
}

#[test]
fn three_modifiers_are_flagged() {
    let heavy = chord(KeyCode::A, vec![KeyCode::ControlLeft, KeyCode::ShiftLeft, KeyCode::Alt]);
    assert_eq!(
        check_accessibility_concerns(&heavy),
        Some(ConflictInfo {
            severity: ConflictSeverity::Info,
            description: "Many modifier keys may be hard to press simultaneously".to_string(),
            suggestion: Some("Consider using fewer modifiers for easier access".to_string()),
        })
    );
}

#[test]
fn universal_modifiers() {
    for key in [KeyCode::Alt, KeyCode::AltGr, KeyCode::MetaLeft, KeyCode::MetaRight] {
        assert!(is_universal_modifier(key));
    }
    for key in [KeyCode::ControlLeft, KeyCode::ShiftRight, KeyCode::A, KeyCode::Space] {
        assert!(!is_universal_modifier(key));
    }
}

#[test]
fn detectors_run_in_fixed_order() {
    // Control (left hand) with O (right hand): the application detector and
    // the ergonomics detector both speak, in that order.
    let conflicts =
        check_shortcut_conflicts(&chord(KeyCode::O, vec![KeyCode::ControlLeft]), Platform::MacOs);
    let severities: Vec<ConflictSeverity> = conflicts.iter().map(|c| c.severity).collect();
    assert_eq!(severities, vec![ConflictSeverity::Warning, ConflictSeverity::Info]);
    assert_eq!(conflicts[0].description, "Conflicts with Open in most applications");

    let plain = check_shortcut_conflicts(&chord(KeyCode::F9, vec![]), Platform::MacOs);
    assert!(plain.is_empty());
}

#[test]
fn detectors_by_name() {
    assert_eq!(Detector::System.name(), "System");
    assert_eq!(Detector::Application.name(), "Application");
    assert_eq!(Detector::Accessibility.name(), "Accessibility");
    let cmd_q = chord(KeyCode::Q, vec![KeyCode::MetaLeft]);
    assert_eq!(
        Detector::System.check(&cmd_q, Platform::MacOs),
        Some(system_error("Cmd+Q quits applications"))
    );
    assert_eq!(Detector::Application.check(&cmd_q, Platform::MacOs), None);
    assert_eq!(Detector::Accessibility.check(&cmd_q, Platform::MacOs), None);
}

#[test]
fn method_and_function_agree() {
    let shortcut = chord(KeyCode::S, vec![KeyCode::ControlLeft]);
    assert_eq!(
        shortcut.check_conflicts(Platform::Windows),
        check_shortcut_conflicts(&shortcut, Platform::Windows)
    );
}

#[test]
fn second_check_is_served_from_the_cache() {
    let mut system = ConflictDetectionSystem::new(Platform::MacOs);
    assert_eq!(system.computations(), 0);
    assert_eq!(system.cache_len(), 0);
    let shortcut = chord(KeyCode::Q, vec![KeyCode::MetaLeft]);
    let first = system.check_conflicts(&shortcut);
    assert_eq!(system.computations(), 1);
    assert_eq!(system.cache_len(), 1);
    let second = system.check_conflicts(&shortcut);
    assert_eq!(first, second);
    assert_eq!(first, check_shortcut_conflicts(&shortcut, Platform::MacOs));
    assert!(first.iter().any(|c| c.severity == ConflictSeverity::Error));
    assert_eq!(system.computations(), 1);
    assert_eq!(system.cache_len(), 1);
    // The mode is part of the shortcut.
    let toggled = RecordingShortcut::new(ShortcutMode::Toggle, KeyCode::Q, vec![KeyCode::MetaLeft]);
    assert_eq!(system.check_conflicts(&toggled), first);
    assert_eq!(system.computations(), 2);
    assert_eq!(system.cache_len(), 2);
}

#[test]
fn clear_cache_forces_a_new_computation() {
    let mut system = ConflictDetectionSystem::new(Platform::Other);
    let shortcut = chord(KeyCode::S, vec![KeyCode::ControlLeft]);
    let first = system.check_conflicts(&shortcut);
    system.clear_cache();
    assert_eq!(system.cache_len(), 0);
    assert_eq!(system.check_conflicts(&shortcut), first);
    assert_eq!(system.computations(), 2);
}

#[test]
fn cache_is_emptied_once_it_exceeds_its_limit() {
    let keys = [
        KeyCode::A, KeyCode::B, KeyCode::C, KeyCode::D, KeyCode::E, KeyCode::F, KeyCode::G,
        KeyCode::H, KeyCode::I, KeyCode::J, KeyCode::K, KeyCode::L, KeyCode::M, KeyCode::N,
        KeyCode::O, KeyCode::P, KeyCode::Q, KeyCode::R, KeyCode::S, KeyCode::T, KeyCode::U,
        KeyCode::V, KeyCode::W, KeyCode::X, KeyCode::Y, KeyCode::Z, KeyCode::Num0, KeyCode::Num1,
        KeyCode::Num2, KeyCode::Num3, KeyCode::Num4, KeyCode::Num5,
    ];
    let mut shortcuts = Vec::new();
    for key in keys {
        for modifier in keys {
            shortcuts.push(chord(key, vec![modifier]));
        }
    }
    assert!(shortcuts.len() > CACHE_LIMIT);
    assert_eq!(CACHE_LIMIT, 1000);
    let mut system = ConflictDetectionSystem::new(Platform::MacOs);
    for (i, shortcut) in shortcuts.iter().take(CACHE_LIMIT).enumerate() {
        system.check_conflicts(shortcut);
        assert_eq!(system.cache_len(), i + 1);
    }
    assert_eq!(system.cache_len(), 1000);
    // One more result, and the cache is emptied as a whole.
    let extra = system.check_conflicts(&shortcuts[CACHE_LIMIT]);
    assert_eq!(extra, check_shortcut_conflicts(&shortcuts[CACHE_LIMIT], Platform::MacOs));
    assert_eq!(system.cache_len(), 0);
    assert_eq!(system.computations(), 1001);
    system.check_conflicts(&shortcuts[0]);
    assert_eq!(system.computations(), 1002);
    assert_eq!(system.cache_len(), 1);
}

#[test]
fn findings_of_severity_error_bar_a_shortcut() {
    let cmd_q = chord(KeyCode::Q, vec![KeyCode::MetaLeft]);
    assert!(has_error(&check_shortcut_conflicts(&cmd_q, Platform::MacOs)));
    assert!(!has_error(&check_shortcut_conflicts(&cmd_q, Platform::Other)));
    let ctrl_o = chord(KeyCode::O, vec![KeyCode::ControlLeft]);
    assert!(!has_error(&check_shortcut_conflicts(&ctrl_o, Platform::MacOs)));
    assert!(!has_error(&vec![]));
    let warning = ConflictInfo {
        severity: ConflictSeverity::Warning,
        description: String::new(),
        suggestion: None,
    };
    assert!(has_error(&vec![warning, system_error("last")]));
}
