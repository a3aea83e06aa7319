use echoes::{
    check_system_conflict, validate_shortcut, Config, ConfigError, ConflictInfo, ConflictSeverity,
    KeyCode, Platform, RecordingShortcut, ShortcutMode, ValidationError,
};

fn chord(key: KeyCode, modifiers: Vec<KeyCode>) -> RecordingShortcut {
    RecordingShortcut::new(ShortcutMode::Hold, key, modifiers)
}

#[test]
fn single_modifier_is_a_valid_shortcut() {
    assert_eq!(validate_shortcut(&RecordingShortcut::default(), Platform::MacOs), Ok(()));
    assert_eq!(RecordingShortcut::default().validate(Platform::Windows), Ok(()));
}

#[test]
fn modifier_as_main_key_with_modifiers_is_refused() {
    assert_eq!(
        validate_shortcut(&chord(KeyCode::ShiftLeft, vec![KeyCode::ControlLeft]), Platform::Other),
        Err(ValidationError::ModifierOnly)
    );
}

#[test]
fn duplicate_modifiers_are_refused() {
    assert_eq!(
        validate_shortcut(
            &chord(KeyCode::A, vec![KeyCode::ControlLeft, KeyCode::Alt, KeyCode::ControlRight]),
            Platform::Other
        ),
        Err(ValidationError::DuplicateModifiers)
    );
    assert_eq!(
        validate_shortcut(&chord(KeyCode::A, vec![KeyCode::Alt, KeyCode::Alt]), Platform::Other),
        Err(ValidationError::DuplicateModifiers)
    );
    assert_eq!(
        validate_shortcut(&chord(KeyCode::A, vec![KeyCode::Alt, KeyCode::AltGr]), Platform::Other),
        Ok(())
    );
}

#[test]
fn modifier_only_is_checked_before_duplicates() {
    assert_eq!(
        validate_shortcut(
            &chord(KeyCode::Alt, vec![KeyCode::ShiftLeft, KeyCode::ShiftRight]),
            Platform::Other
        ),
        Err(ValidationError::ModifierOnly)
    );
}

#[test]
fn system_shortcuts_are_refused() {
    assert_eq!(
        validate_shortcut(&chord(KeyCode::Q, vec![KeyCode::MetaRight]), Platform::MacOs),
        Err(ValidationError::SystemConflict("Cmd+Q quits applications".to_string()))
    );
    assert_eq!(
        validate_shortcut(&chord(KeyCode::Q, vec![KeyCode::MetaRight]), Platform::Other),
        Ok(())
    );
    assert_eq!(
        validate_shortcut(
            &chord(KeyCode::Delete, vec![KeyCode::ControlRight, KeyCode::AltGr]),
            Platform::Other
        ),
        Err(ValidationError::SystemConflict("Ctrl+Alt+Delete is a system shortcut".to_string()))
    );
}

#[test]
fn system_conflicts_by_platform() {
    let meta = |key| chord(key, vec![KeyCode::ShiftLeft, KeyCode::MetaLeft]);
    assert_eq!(
        check_system_conflict(&meta(KeyCode::Tab), Platform::MacOs),
        Some("Cmd+Tab switches applications".to_string())
    );
    assert_eq!(
        check_system_conflict(&meta(KeyCode::Tab), Platform::Windows),
        Some("Win+Tab opens Task View".to_string())
    );
    assert_eq!(check_system_conflict(&meta(KeyCode::Tab), Platform::Other), None);
    // Spotlight is command and space alone.
    assert_eq!(check_system_conflict(&meta(KeyCode::Space), Platform::MacOs), None);
    assert_eq!(
        check_system_conflict(&chord(KeyCode::Space, vec![KeyCode::MetaLeft]), Platform::MacOs),
        Some("Cmd+Space opens Spotlight search".to_string())
    );
    assert_eq!(
        check_system_conflict(&chord(KeyCode::Tab, vec![KeyCode::AltGr]), Platform::Windows),
        Some("Alt+Tab switches windows".to_string())
    );
    assert_eq!(
        check_system_conflict(&chord(KeyCode::L, vec![KeyCode::MetaLeft]), Platform::Windows),
        Some("Win+L locks the computer".to_string())
    );
    assert_eq!(
        check_system_conflict(&chord(KeyCode::D, vec![KeyCode::MetaRight]), Platform::Windows),
        Some("Win+D shows desktop".to_string())
    );
    assert_eq!(check_system_conflict(&chord(KeyCode::L, vec![KeyCode::MetaLeft]), Platform::MacOs), None);
}

#[test]
fn validation_error_messages() {
    assert_eq!(ValidationError::EmptyShortcut.message(), "Shortcut cannot be empty");
    assert_eq!(ValidationError::ModifierOnly.message(), "Shortcut cannot be only a modifier key");
    assert_eq!(ValidationError::DuplicateModifiers.message(), "Duplicate modifier keys detected");
    assert_eq!(
        ValidationError::SystemConflict("Cmd+Q quits applications".to_string()).message(),
        "Conflicts with system shortcut: Cmd+Q quits applications"
    );
    let info = |text: &str| ConflictInfo {
        severity: ConflictSeverity::Warning,
        description: text.to_string(),
        suggestion: None,
    };
    assert_eq!(
        ValidationError::ConflictsDetected(vec![info("one"), info("two"), info("three")]).message(),
        "Conflicts detected: one, two, three"
    );
    assert_eq!(ValidationError::ConflictsDetected(vec![]).message(), "Conflicts detected: ");
}

#[test]
fn config_validation_wraps_the_shortcut_error() {
    let mut config = Config::default();
    assert_eq!(config.validate(Platform::MacOs), Ok(()));
    config.recording_shortcut = chord(KeyCode::ShiftLeft, vec![KeyCode::ControlLeft]);
    assert_eq!(
        config.validate(Platform::MacOs),
        Err(ConfigError::ValidationError("Shortcut cannot be only a modifier key".to_string()))
    );
    config.recording_shortcut = chord(KeyCode::W, vec![KeyCode::MetaLeft]);
    assert_eq!(
        config.validate(Platform::MacOs),
        Err(ConfigError::ValidationError(
            "Conflicts with system shortcut: Cmd+W closes windows".to_string()
        ))
    );
    assert_eq!(config.validate(Platform::Other), Ok(()));
}
