//! Shortcut conflict detection: which chords the operating system keeps for
//! itself, which ones common applications use, and which ones are awkward
//! to press.

use vstd::prelude::*;
use vstd::string::*;
use crate::keys::{KeyCode, Platform};
use crate::shortcut::{RecordingShortcut, ShortcutView};

verus! {

/// How serious a conflict is.
#[derive(Debug, Clone, Copy, PartialEq, Eq, Structural)]
pub enum ConflictSeverity {
    /// The system owns the chord; it cannot be overridden.
    Error,
    /// A common application shortcut would be shadowed.
    Warning,
    /// The chord works but is uncomfortable.
    Info,
}

/// One finding about a shortcut.
#[derive(Debug, PartialEq, Eq)]
pub struct ConflictInfo {
    pub severity: ConflictSeverity,
    pub description: String,
    pub suggestion: Option<String>,
}

/// A finding as a mathematical value.
pub struct ConflictView {
    pub severity: ConflictSeverity,
    pub description: Seq<char>,
    pub suggestion: Option<Seq<char>>,
}

impl View for ConflictInfo {
    type V = ConflictView;

    open spec fn view(&self) -> ConflictView {
        ConflictView {
            severity: self.severity,
            description: self.description@,
            suggestion: match self.suggestion {
                Some(text) => Some(text@),
                None => None,
            },
        }
    }
}

impl Clone for ConflictInfo {
    fn clone(&self) -> (copy: Self)
        ensures
            copy@ == self@,
    {
        let suggestion = match &self.suggestion {
            Some(text) => Some(text.clone()),
            None => None,
        };
        ConflictInfo { severity: self.severity, description: self.description.clone(), suggestion }
    }
}

/// The findings of a list, as mathematical values.
pub open spec fn findings(list: Seq<ConflictInfo>) -> Seq<ConflictView> {
    list.map_values(|info: ConflictInfo| info@)
}

/// `modifiers` holds exactly the one key `key`.
pub open spec fn only(modifiers: Seq<KeyCode>, key: KeyCode) -> bool {
    modifiers.len() == 1 && modifiers[0] == key
}

/// What the system does with a chord that it keeps for itself, if it keeps it.
pub open spec fn reserved_by_system(shortcut: ShortcutView, platform: Platform) -> Option<
    Seq<char>,
> {
    match platform {
        Platform::MacOs => if only(shortcut.modifiers, KeyCode::MetaLeft) {
            match shortcut.key {
                KeyCode::Q => Some("Cmd+Q quits applications"@),
                KeyCode::W => Some("Cmd+W closes windows"@),
                KeyCode::H => Some("Cmd+H hides applications"@),
                KeyCode::M => Some("Cmd+M minimizes windows"@),
                KeyCode::Tab => Some("Cmd+Tab switches applications"@),
                KeyCode::Space => Some("Cmd+Space opens Spotlight search"@),
                _ => None,
            }
        } else {
            None
        },
        Platform::Windows => if only(shortcut.modifiers, KeyCode::MetaLeft) {
            match shortcut.key {
                KeyCode::L => Some("Win+L locks the computer"@),
                KeyCode::D => Some("Win+D shows desktop"@),
                KeyCode::Tab => Some("Win+Tab opens Task View"@),
                _ => None,
            }
        } else if only(shortcut.modifiers, KeyCode::Alt) && shortcut.key == KeyCode::Tab {
            Some("Alt+Tab switches windows"@)
        } else {
            None
        },
        Platform::Other => None,
    }
}

/// The finding of the system detector.
pub open spec fn system_finding(shortcut: ShortcutView, platform: Platform) -> Option<
    ConflictView,
> {
    match reserved_by_system(shortcut, platform) {
        Some(description) => Some(
            ConflictView {
                severity: ConflictSeverity::Error,
                description,
                suggestion: Some("System shortcuts cannot be overridden"@),
            },
        ),
        None => None,
    }
}

/// The action that most applications bind to control or command plus `key`.
pub open spec fn common_action(key: KeyCode) -> Option<Seq<char>> {
    match key {
        KeyCode::S => Some("Save"@),
        KeyCode::C => Some("Copy"@),
        KeyCode::V => Some("Paste"@),
        KeyCode::X => Some("Cut"@),
        KeyCode::Z => Some("Undo"@),
        KeyCode::A => Some("Select All"@),
        KeyCode::F => Some("Find"@),
        KeyCode::N => Some("New"@),
        KeyCode::O => Some("Open"@),
        KeyCode::R => Some("Refresh/Reload"@),
        _ => None,
    }
}

/// The finding of the application detector.
pub open spec fn application_finding(shortcut: ShortcutView) -> Option<ConflictView> {
    if only(shortcut.modifiers, KeyCode::ControlLeft) || only(
        shortcut.modifiers,
        KeyCode::MetaLeft,
    ) {
        match common_action(shortcut.key) {
            Some(action) => Some(
                ConflictView {
                    severity: ConflictSeverity::Warning,
                    description: "Conflicts with "@ + action + " in most applications"@,
                    suggestion: Some("This will prevent "@ + action + " while recording"@),
                },
            ),
            None => None,
        }
    } else {
        None
    }
}

/// Keys under the left hand on a conventional keyboard.
pub open spec fn left_hand(key: KeyCode) -> bool {
    match key {
        KeyCode::Q | KeyCode::W | KeyCode::E | KeyCode::R | KeyCode::T | KeyCode::A | KeyCode::S
        | KeyCode::D | KeyCode::F | KeyCode::G | KeyCode::Z | KeyCode::X | KeyCode::C
        | KeyCode::V | KeyCode::B | KeyCode::Tab | KeyCode::CapsLock | KeyCode::ShiftLeft
        | KeyCode::ControlLeft | KeyCode::Num1 | KeyCode::Num2 | KeyCode::Num3 | KeyCode::Num4
        | KeyCode::Num5 => true,
        _ => false,
    }
}

/// Keys under the right hand on a conventional keyboard.
pub open spec fn right_hand(key: KeyCode) -> bool {
    match key {
        KeyCode::Y | KeyCode::U | KeyCode::I | KeyCode::O | KeyCode::P | KeyCode::H | KeyCode::J
        | KeyCode::K | KeyCode::L | KeyCode::N | KeyCode::M | KeyCode::ShiftRight
        | KeyCode::ControlRight | KeyCode::Num6 | KeyCode::Num7 | KeyCode::Num8 | KeyCode::Num9
        | KeyCode::Num0 => true,
        _ => false,
    }
}

/// Modifiers that either hand reaches.
pub open spec fn universal_modifier(key: KeyCode) -> bool {
    key == KeyCode::Alt || key == KeyCode::AltGr || key == KeyCode::MetaLeft || key
        == KeyCode::MetaRight
}

/// A chord is within one hand's reach when its main key lies under neither
/// hand, or when every modifier lies under the main key's hand or is
/// universal.
pub open spec fn one_handed(shortcut: ShortcutView) -> bool {
    if left_hand(shortcut.key) {
        forall|i: int|
            0 <= i < shortcut.modifiers.len() ==> left_hand(#[trigger] shortcut.modifiers[i])
                || universal_modifier(shortcut.modifiers[i])
    } else if right_hand(shortcut.key) {
        forall|i: int|
            0 <= i < shortcut.modifiers.len() ==> right_hand(#[trigger] shortcut.modifiers[i])
                || universal_modifier(shortcut.modifiers[i])
    } else {
        true
    }
}

/// The finding of the ergonomics detector.
pub open spec fn accessibility_finding(shortcut: ShortcutView) -> Option<ConflictView> {
    if !one_handed(shortcut) {
        Some(
            ConflictView {
                severity: ConflictSeverity::Info,
                description: "This combination might be difficult to press with one hand"@,
                suggestion: Some("Consider using keys closer together or fewer modifiers"@),
            },
        )
    } else if shortcut.modifiers.len() >= 3 {
        Some(
            ConflictView {
                severity: ConflictSeverity::Info,
                description: "Many modifier keys may be hard to press simultaneously"@,
                suggestion: Some("Consider using fewer modifiers for easier access"@),
            },
        )
    } else {
        None
    }
}

/// A list of zero or one finding.
pub open spec fn listed(finding: Option<ConflictView>) -> Seq<ConflictView> {
    match finding {
        Some(view) => seq![view],
        None => Seq::empty(),
    }
}

/// Everything the detectors find about a shortcut: the system detector
/// first, then the application detector, then the ergonomics detector.
pub open spec fn conflicts_of(shortcut: ShortcutView, platform: Platform) -> Seq<ConflictView> {
    listed(system_finding(shortcut, platform)) + listed(application_finding(shortcut)) + listed(
        accessibility_finding(shortcut),
    )
}

/// The view of an optional finding.
pub open spec fn finding_view(finding: Option<ConflictInfo>) -> Option<ConflictView> {
    match finding {
        Some(info) => Some(info@),
        None => None,
    }
}

fn has_only(modifiers: &Vec<KeyCode>, key: KeyCode) -> (r: bool)
    ensures
        r == only(modifiers@, key),
{
    modifiers.len() == 1 && modifiers[0] == key
}

/// The system detector: looks the chord up among those the platform keeps
/// for itself.
pub fn check_system_table(shortcut: &RecordingShortcut, platform: Platform) -> (finding: Option<
    ConflictInfo,
>)
    ensures
        finding_view(finding) == system_finding(shortcut@, platform),
{
    let description: Option<&str> = match platform {
        Platform::MacOs => {
            if has_only(&shortcut.modifiers, KeyCode::MetaLeft) {
                match shortcut.key {
                    KeyCode::Q => Some("Cmd+Q quits applications"),
                    KeyCode::W => Some("Cmd+W closes windows"),
                    KeyCode::H => Some("Cmd+H hides applications"),
                    KeyCode::M => Some("Cmd+M minimizes windows"),
                    KeyCode::Tab => Some("Cmd+Tab switches applications"),
                    KeyCode::Space => Some("Cmd+Space opens Spotlight search"),
                    _ => None,
                }
            } else {
                None
            }
        },
        Platform::Windows => {
            if has_only(&shortcut.modifiers, KeyCode::MetaLeft) {
                match shortcut.key {
                    KeyCode::L => Some("Win+L locks the computer"),
                    KeyCode::D => Some("Win+D shows desktop"),
                    KeyCode::Tab => Some("Win+Tab opens Task View"),
                    _ => None,
                }
            } else if has_only(&shortcut.modifiers, KeyCode::Alt) && shortcut.key
                == KeyCode::Tab {
                Some("Alt+Tab switches windows")
            } else {
                None
            }
        },
        Platform::Other => None,
    };
    match description {
        Some(text) => Some(
            ConflictInfo {
                severity: ConflictSeverity::Error,
                description: String::from_str(text),
                suggestion: Some(String::from_str("System shortcuts cannot be overridden")),
            },
        ),
        None => None,
    }
}

/// The application detector: control or command plus a letter that most
/// applications bind.
pub fn check_application_conflict(shortcut: &RecordingShortcut) -> (finding: Option<
    ConflictInfo,
>)
    ensures
        finding_view(finding) == application_finding(shortcut@),
{
    if !(has_only(&shortcut.modifiers, KeyCode::ControlLeft) || has_only(
        &shortcut.modifiers,
        KeyCode::MetaLeft,
    )) {
        return None;
    }
    let action: Option<&str> = match shortcut.key {
        KeyCode::S => Some("Save"),
        KeyCode::C => Some("Copy"),
        KeyCode::V => Some("Paste"),
        KeyCode::X => Some("Cut"),
        KeyCode::Z => Some("Undo"),
        KeyCode::A => Some("Select All"),
        KeyCode::F => Some("Find"),
        KeyCode::N => Some("New"),
        KeyCode::O => Some("Open"),
        KeyCode::R => Some("Refresh/Reload"),
        _ => None,
    };
    match action {
        Some(name) => {
            let description = String::from_str("Conflicts with ").concat(name).concat(
                " in most applications",
            );
            let suggestion = String::from_str("This will prevent ").concat(name).concat(
                " while recording",
            );
            Some(
                ConflictInfo {
                    severity: ConflictSeverity::Warning,
                    description,
                    suggestion: Some(suggestion),
                },
            )
        },
        None => None,
    }
}

fn is_left_hand(key: KeyCode) -> (r: bool)
    ensures
        r == left_hand(key),
{
    matches!(
        key,
        KeyCode::Q | KeyCode::W | KeyCode::E | KeyCode::R | KeyCode::T | KeyCode::A | KeyCode::S
            | KeyCode::D | KeyCode::F | KeyCode::G | KeyCode::Z | KeyCode::X | KeyCode::C
            | KeyCode::V | KeyCode::B | KeyCode::Tab | KeyCode::CapsLock | KeyCode::ShiftLeft
            | KeyCode::ControlLeft | KeyCode::Num1 | KeyCode::Num2 | KeyCode::Num3
            | KeyCode::Num4 | KeyCode::Num5
    )
}

fn is_right_hand(key: KeyCode) -> (r: bool)
    ensures
        r == right_hand(key),
{
    matches!(
        key,
        KeyCode::Y | KeyCode::U | KeyCode::I | KeyCode::O | KeyCode::P | KeyCode::H | KeyCode::J
            | KeyCode::K | KeyCode::L | KeyCode::N | KeyCode::M | KeyCode::ShiftRight
            | KeyCode::ControlRight | KeyCode::Num6 | KeyCode::Num7 | KeyCode::Num8
            | KeyCode::Num9 | KeyCode::Num0
    )
}

/// Whether either hand reaches the modifier `key`.
pub fn is_universal_modifier(key: KeyCode) -> (r: bool)
    ensures
        r == universal_modifier(key),
{
    matches!(key, KeyCode::Alt | KeyCode::AltGr | KeyCode::MetaLeft | KeyCode::MetaRight)
}

/// Whether the chord can be pressed comfortably with one hand.
pub fn is_easily_accessible(shortcut: &RecordingShortcut) -> (r: bool)
    ensures
        r == one_handed(shortcut@),
{
    let main_left = is_left_hand(shortcut.key);
    let main_right = is_right_hand(shortcut.key);
    if !main_left && !main_right {
        return true;
    }
    let mut i: usize = 0;
    while i < shortcut.modifiers.len()
        invariant
            i <= shortcut.modifiers.len(),
            main_left == left_hand(shortcut.key),
            main_right == right_hand(shortcut.key),
            main_left || main_right,
            forall|j: int|
                0 <= j < i ==> universal_modifier(#[trigger] shortcut.modifiers@[j]) || (
                if main_left {
                    left_hand(shortcut.modifiers@[j])
                } else {
                    right_hand(shortcut.modifiers@[j])
                }),
        decreases shortcut.modifiers.len() - i,
    {
        let modifier = shortcut.modifiers[i];
        let same_side = if main_left {
            is_left_hand(modifier)
        } else {
            is_right_hand(modifier)
        };
        if !same_side && !is_universal_modifier(modifier) {
            assert(shortcut@.modifiers[i as int] == modifier);
            return false;
        }
        i += 1;
    }
    true
}

/// The ergonomics detector: chords that span both hands, or that need three
/// or more modifiers.
pub fn check_accessibility_concerns(shortcut: &RecordingShortcut) -> (finding: Option<
    ConflictInfo,
>)
    ensures
        finding_view(finding) == accessibility_finding(shortcut@),
{
    if !is_easily_accessible(shortcut) {
        return Some(
            ConflictInfo {
                severity: ConflictSeverity::Info,
                description: String::from_str(
                    "This combination might be difficult to press with one hand",
                ),
                suggestion: Some(
                    String::from_str("Consider using keys closer together or fewer modifiers"),
                ),
            },
        );
    }
    if shortcut.modifiers.len() >= 3 {
        return Some(
            ConflictInfo {
                severity: ConflictSeverity::Info,
                description: String::from_str(
                    "Many modifier keys may be hard to press simultaneously",
                ),
                suggestion: Some(
                    String::from_str("Consider using fewer modifiers for easier access"),
                ),
            },
        );
    }
    None
}

/// Runs the three detectors in their fixed order.
pub fn check_shortcut_conflicts(shortcut: &RecordingShortcut, platform: Platform) -> (list: Vec<
    ConflictInfo,
>)
    ensures
        findings(list@) == conflicts_of(shortcut@, platform),
{
    let mut list: Vec<ConflictInfo> = Vec::new();
    if let Some(info) = check_system_table(shortcut, platform) {
        list.push(info);
    }
    if let Some(info) = check_application_conflict(shortcut) {
        list.push(info);
    }
    if let Some(info) = check_accessibility_concerns(shortcut) {
        list.push(info);
    }
    list
}

/// Some finding of `list` has severity `Error`.
pub open spec fn any_error(list: Seq<ConflictInfo>) -> bool {
    exists|i: int| 0 <= i < list.len() && (#[trigger] list[i]).severity == ConflictSeverity::Error
}

/// Whether the findings bar the shortcut: one of severity `Error` does.
pub fn has_error(list: &Vec<ConflictInfo>) -> (r: bool)
    ensures
        r == any_error(list@),
{
    let mut i: usize = 0;
    while i < list.len()
        invariant
            i <= list.len(),
            forall|j: int| 0 <= j < i ==> (#[trigger] list@[j]).severity != ConflictSeverity::Error,
        decreases list.len() - i,
    {
        if list[i].severity == ConflictSeverity::Error {
            return true;
        }
        i += 1;
    }
    false
}

/// One of the three detectors.
#[derive(Debug, Clone, Copy, PartialEq, Eq, Structural)]
pub enum Detector {
    System,
    Application,
    Accessibility,
}

/// What a detector finds.
pub open spec fn detector_finding(detector: Detector, shortcut: ShortcutView, platform: Platform) -> Option<
    ConflictView,
> {
    match detector {
        Detector::System => system_finding(shortcut, platform),
        Detector::Application => application_finding(shortcut),
        Detector::Accessibility => accessibility_finding(shortcut),
    }
}

impl Detector {
    /// Runs the detector on a shortcut.
    pub fn check(&self, shortcut: &RecordingShortcut, platform: Platform) -> (finding: Option<
        ConflictInfo,
    >)
        ensures
            finding_view(finding) == detector_finding(*self, shortcut@, platform),
    {
        match self {
            Detector::System => check_system_table(shortcut, platform),
            Detector::Application => check_application_conflict(shortcut),
            Detector::Accessibility => check_accessibility_concerns(shortcut),
        }
    }

    /// The detector's name.
    pub fn name(&self) -> (name: &'static str)
        ensures
            name@ == (match self {
                Detector::System => "System"@,
                Detector::Application => "Application"@,
                Detector::Accessibility => "Accessibility"@,
            }),
    {
        match self {
            Detector::System => "System",
            Detector::Application => "Application",
            Detector::Accessibility => "Accessibility",
        }
    }
}

/// A chord that the platform keeps for itself is always reported: the first
/// finding about it has severity `Error`. No other chord has a finding of
/// that severity.
pub proof fn lemma_reserved_is_error(shortcut: ShortcutView, platform: Platform)
    ensures
        reserved_by_system(shortcut, platform) is Some ==> conflicts_of(shortcut, platform).len()
            >= 1 && conflicts_of(shortcut, platform)[0].severity == ConflictSeverity::Error,
        reserved_by_system(shortcut, platform) is None ==> forall|i: int|
            0 <= i < conflicts_of(shortcut, platform).len() ==> (#[trigger] conflicts_of(
                shortcut,
                platform,
            )[i]).severity != ConflictSeverity::Error,
        conflicts_of(shortcut, platform).len() <= 3,
{
}

impl RecordingShortcut {
    /// Everything the detectors find about this shortcut.
    pub fn check_conflicts(&self, platform: Platform) -> (list: Vec<ConflictInfo>)
        ensures
            findings(list@) == conflicts_of(self@, platform),
    {
        check_shortcut_conflicts(self, platform)
    }
}

} // verus!
