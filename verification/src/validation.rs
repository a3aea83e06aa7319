//! Shortcut validation: what makes a chord unusable before it is ever
//! pressed.

use vstd::prelude::*;
use vstd::string::*;
use crate::conflict::{ConflictInfo, ConflictView, findings};
use crate::keys::{KeyCode, Platform, is_modifier, is_modifier_key, normalize_modifier, normalized};
use crate::shortcut::{RecordingShortcut, ShortcutView, contains_key};

verus! {

/// Why a shortcut is refused.
#[derive(Debug, PartialEq, Eq)]
pub enum ValidationError {
    EmptyShortcut,
    /// The main key is a modifier although the chord has modifiers.
    ModifierOnly,
    /// Two modifiers have the same canonical form.
    DuplicateModifiers,
    /// The system keeps the chord for itself.
    SystemConflict(String),
    ConflictsDetected(Vec<ConflictInfo>),
}

/// A validation error as a mathematical value.
pub enum ValidationErrorView {
    EmptyShortcut,
    ModifierOnly,
    DuplicateModifiers,
    SystemConflict(Seq<char>),
    ConflictsDetected(Seq<ConflictView>),
}

impl View for ValidationError {
    type V = ValidationErrorView;

    open spec fn view(&self) -> ValidationErrorView {
        match self {
            ValidationError::EmptyShortcut => ValidationErrorView::EmptyShortcut,
            ValidationError::ModifierOnly => ValidationErrorView::ModifierOnly,
            ValidationError::DuplicateModifiers => ValidationErrorView::DuplicateModifiers,
            ValidationError::SystemConflict(text) => ValidationErrorView::SystemConflict(text@),
            ValidationError::ConflictsDetected(list) => ValidationErrorView::ConflictsDetected(
                findings(list@),
            ),
        }
    }
}

/// The descriptions of `list`, separated by `", "`.
pub open spec fn joined_descriptions(list: Seq<ConflictView>) -> Seq<char>
    decreases list.len(),
{
    if list.len() == 0 {
        Seq::empty()
    } else if list.len() == 1 {
        list[0].description
    } else {
        joined_descriptions(list.drop_last()) + ", "@ + list.last().description
    }
}

/// The text of a validation error.
pub open spec fn validation_error_text(error: ValidationErrorView) -> Seq<char> {
    match error {
        ValidationErrorView::EmptyShortcut => "Shortcut cannot be empty"@,
        ValidationErrorView::ModifierOnly => "Shortcut cannot be only a modifier key"@,
        ValidationErrorView::DuplicateModifiers => "Duplicate modifier keys detected"@,
        ValidationErrorView::SystemConflict(text) => "Conflicts with system shortcut: "@ + text,
        ValidationErrorView::ConflictsDetected(list) => "Conflicts detected: "@
            + joined_descriptions(list),
    }
}

impl ValidationError {
    /// The error as text.
    pub fn message(&self) -> (text: String)
        ensures
            text@ == validation_error_text(self@),
    {
        match self {
            ValidationError::EmptyShortcut => String::from_str("Shortcut cannot be empty"),
            ValidationError::ModifierOnly => String::from_str(
                "Shortcut cannot be only a modifier key",
            ),
            ValidationError::DuplicateModifiers => String::from_str(
                "Duplicate modifier keys detected",
            ),
            ValidationError::SystemConflict(description) => String::from_str(
                "Conflicts with system shortcut: ",
            ).concat(description.as_str()),
            ValidationError::ConflictsDetected(list) => {
                let mut joined = String::new();
                let mut i: usize = 0;
                while i < list.len()
                    invariant
                        i <= list.len(),
                        joined@ == joined_descriptions(findings(list@).take(i as int)),
                    decreases list.len() - i,
                {
                    assert(findings(list@).take(i + 1).drop_last() == findings(list@).take(
                        i as int,
                    ));
                    if i > 0 {
                        joined.append(", ");
                    }
                    joined.append(list[i].description.as_str());
                    i += 1;
                }
                assert(findings(list@).take(list@.len() as int) == findings(list@));
                String::from_str("Conflicts detected: ").concat(joined.as_str())
            },
        }
    }
}

/// Either control key is among `modifiers`.
pub open spec fn has_control(modifiers: Seq<KeyCode>) -> bool {
    modifiers.contains(KeyCode::ControlLeft) || modifiers.contains(KeyCode::ControlRight)
}

/// Either alt key is among `modifiers`.
pub open spec fn has_alt(modifiers: Seq<KeyCode>) -> bool {
    modifiers.contains(KeyCode::Alt) || modifiers.contains(KeyCode::AltGr)
}

/// Either meta key is among `modifiers`.
pub open spec fn has_meta(modifiers: Seq<KeyCode>) -> bool {
    modifiers.contains(KeyCode::MetaLeft) || modifiers.contains(KeyCode::MetaRight)
}

/// What the platform itself does with a chord, where it does anything.
pub open spec fn platform_shortcut(shortcut: ShortcutView, platform: Platform) -> Option<
    Seq<char>,
> {
    match platform {
        Platform::MacOs => if has_meta(shortcut.modifiers) {
            match shortcut.key {
                KeyCode::Q => Some("Cmd+Q quits applications"@),
                KeyCode::W => Some("Cmd+W closes windows"@),
                KeyCode::H => Some("Cmd+H hides applications"@),
                KeyCode::M => Some("Cmd+M minimizes windows"@),
                KeyCode::Tab => Some("Cmd+Tab switches applications"@),
                KeyCode::Space => if shortcut.modifiers.len() == 1 {
                    Some("Cmd+Space opens Spotlight search"@)
                } else {
                    None
                },
                _ => None,
            }
        } else {
            None
        },
        Platform::Windows => if has_meta(shortcut.modifiers) && shortcut.key == KeyCode::L {
            Some("Win+L locks the computer"@)
        } else if has_meta(shortcut.modifiers) && shortcut.key == KeyCode::D {
            Some("Win+D shows desktop"@)
        } else if has_meta(shortcut.modifiers) && shortcut.key == KeyCode::Tab {
            Some("Win+Tab opens Task View"@)
        } else if has_alt(shortcut.modifiers) && shortcut.key == KeyCode::Tab {
            Some("Alt+Tab switches windows"@)
        } else {
            None
        },
        Platform::Other => None,
    }
}

/// The system shortcut that a chord collides with, if any: one of the
/// platform's own, or control, alt and delete together.
pub open spec fn system_conflict(shortcut: ShortcutView, platform: Platform) -> Option<Seq<char>> {
    match platform_shortcut(shortcut, platform) {
        Some(text) => Some(text),
        None => if has_control(shortcut.modifiers) && has_alt(shortcut.modifiers) && shortcut.key
            == KeyCode::Delete {
            Some("Ctrl+Alt+Delete is a system shortcut"@)
        } else {
            None
        },
    }
}

/// Two of the modifiers have the same canonical form.
pub open spec fn duplicate_modifiers(modifiers: Seq<KeyCode>) -> bool {
    exists|i: int, j: int|
        0 <= i < j < modifiers.len() && normalized(#[trigger] modifiers[i]) == normalized(
            #[trigger] modifiers[j],
        )
}

/// The verdict on a shortcut. The checks are made in this order: a modifier
/// as main key of a chord with modifiers, duplicate modifiers, a collision
/// with a system shortcut.
pub open spec fn verdict(shortcut: ShortcutView, platform: Platform) -> Result<
    (),
    ValidationErrorView,
> {
    if is_modifier(shortcut.key) && shortcut.modifiers.len() > 0 {
        Err(ValidationErrorView::ModifierOnly)
    } else if duplicate_modifiers(shortcut.modifiers) {
        Err(ValidationErrorView::DuplicateModifiers)
    } else {
        match system_conflict(shortcut, platform) {
            Some(text) => Err(ValidationErrorView::SystemConflict(text)),
            None => Ok(()),
        }
    }
}

/// The view of a verdict.
pub open spec fn verdict_view(result: Result<(), ValidationError>) -> Result<
    (),
    ValidationErrorView,
> {
    match result {
        Ok(()) => Ok(()),
        Err(error) => Err(error@),
    }
}

/// The view of an optional text.
pub open spec fn text_view(text: Option<String>) -> Option<Seq<char>> {
    match text {
        Some(t) => Some(t@),
        None => None,
    }
}

fn holds_either(modifiers: &Vec<KeyCode>, first: KeyCode, second: KeyCode) -> (r: bool)
    ensures
        r == (modifiers@.contains(first) || modifiers@.contains(second)),
{
    contains_key(modifiers.as_slice(), first) || contains_key(modifiers.as_slice(), second)
}

/// The system shortcut that a chord collides with, if any.
pub fn check_system_conflict(shortcut: &RecordingShortcut, platform: Platform) -> (conflict: Option<
    String,
>)
    ensures
        text_view(conflict) == system_conflict(shortcut@, platform),
{
    let meta = holds_either(&shortcut.modifiers, KeyCode::MetaLeft, KeyCode::MetaRight);
    let alt = holds_either(&shortcut.modifiers, KeyCode::Alt, KeyCode::AltGr);
    let control = holds_either(&shortcut.modifiers, KeyCode::ControlLeft, KeyCode::ControlRight);
    let own: Option<&str> = match platform {
        Platform::MacOs => {
            if meta {
                match shortcut.key {
                    KeyCode::Q => Some("Cmd+Q quits applications"),
                    KeyCode::W => Some("Cmd+W closes windows"),
                    KeyCode::H => Some("Cmd+H hides applications"),
                    KeyCode::M => Some("Cmd+M minimizes windows"),
                    KeyCode::Tab => Some("Cmd+Tab switches applications"),
                    KeyCode::Space => {
                        if shortcut.modifiers.len() == 1 {
                            Some("Cmd+Space opens Spotlight search")
                        } else {
                            None
                        }
                    },
                    _ => None,
                }
            } else {
                None
            }
        },
        Platform::Windows => {
            if meta && shortcut.key == KeyCode::L {
                Some("Win+L locks the computer")
            } else if meta && shortcut.key == KeyCode::D {
                Some("Win+D shows desktop")
            } else if meta && shortcut.key == KeyCode::Tab {
                Some("Win+Tab opens Task View")
            } else if alt && shortcut.key == KeyCode::Tab {
                Some("Alt+Tab switches windows")
            } else {
                None
            }
        },
        Platform::Other => None,
    };
    match own {
        Some(text) => Some(String::from_str(text)),
        None => {
            if control && alt && shortcut.key == KeyCode::Delete {
                Some(String::from_str("Ctrl+Alt+Delete is a system shortcut"))
            } else {
                None
            }
        },
    }
}

/// Whether two of the modifiers have the same canonical form.
fn has_duplicate_modifiers(modifiers: &Vec<KeyCode>) -> (r: bool)
    ensures
        r == duplicate_modifiers(modifiers@),
{
    let mut j: usize = 0;
    while j < modifiers.len()
        invariant
            j <= modifiers.len(),
            forall|a: int, b: int|
                0 <= a < b < j ==> normalized(#[trigger] modifiers@[a]) != normalized(
                    #[trigger] modifiers@[b],
                ),
        decreases modifiers.len() - j,
    {
        let later = normalize_modifier(&modifiers[j]);
        let mut i: usize = 0;
        while i < j
            invariant
                i <= j < modifiers.len(),
                later == normalized(modifiers@[j as int]),
                forall|a: int| 0 <= a < i ==> normalized(#[trigger] modifiers@[a]) != later,
            decreases j - i,
        {
            if normalize_modifier(&modifiers[i]) == later {
                return true;
            }
            i += 1;
        }
        j += 1;
    }
    false
}

/// Validates a shortcut.
pub fn validate_shortcut(shortcut: &RecordingShortcut, platform: Platform) -> (result: Result<
    (),
    ValidationError,
>)
    ensures
        verdict_view(result) == verdict(shortcut@, platform),
{
    if is_modifier_key(&shortcut.key) && shortcut.modifiers.len() > 0 {
        return Err(ValidationError::ModifierOnly);
    }
    if has_duplicate_modifiers(&shortcut.modifiers) {
        return Err(ValidationError::DuplicateModifiers);
    }
    match check_system_conflict(shortcut, platform) {
        Some(text) => Err(ValidationError::SystemConflict(text)),
        None => Ok(()),
    }
}

impl RecordingShortcut {
    /// Validates this shortcut.
    pub fn validate(&self, platform: Platform) -> (result: Result<(), ValidationError>)
        ensures
            verdict_view(result) == verdict(self@, platform),
    {
        validate_shortcut(self, platform)
    }
}

} // verus!
