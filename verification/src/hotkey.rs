//! The global-hotkey state machine.
//!
//! Key presses and releases come in one at a time. In normal operation the
//! machine tracks which keys are down and reports when the configured chord
//! engages or disengages. In capture mode it collects the keys of a new
//! chord instead.

use vstd::prelude::*;
use crate::keys::{KeyCode, ShortcutMode, is_modifier, is_modifier_key};
use crate::shortcut::{
    RecordingShortcut,
    ShortcutView,
    chord_of,
    contains_key,
    distinct,
    extract_shortcut_from_keys,
    lemma_chord_has_main_key,
    remove_key,
    without_key,
};

verus! {

/// What the machine reports to its consumer.
#[derive(Debug, PartialEq, Eq)]
pub enum KeyboardEvent {
    /// The chord engaged: recording should start.
    RecordingKeyPressed,
    /// The chord disengaged: recording should stop.
    RecordingKeyReleased,
    /// Another key broke a held chord: recording should be cancelled.
    OtherKeyPressed,
    /// The key hook failed; the listener has stopped.
    ListenerError(String),
    /// Capture mode ended with a new chord.
    ShortcutRecorded(RecordingShortcut),
    /// Capture mode was cancelled.
    RecordingCancelled,
}

/// An event as a mathematical value.
pub enum EventView {
    RecordingKeyPressed,
    RecordingKeyReleased,
    OtherKeyPressed,
    ListenerError(Seq<char>),
    ShortcutRecorded(ShortcutView),
    RecordingCancelled,
}

impl View for KeyboardEvent {
    type V = EventView;

    open spec fn view(&self) -> EventView {
        match self {
            KeyboardEvent::RecordingKeyPressed => EventView::RecordingKeyPressed,
            KeyboardEvent::RecordingKeyReleased => EventView::RecordingKeyReleased,
            KeyboardEvent::OtherKeyPressed => EventView::OtherKeyPressed,
            KeyboardEvent::ListenerError(message) => EventView::ListenerError(message@),
            KeyboardEvent::ShortcutRecorded(shortcut) => EventView::ShortcutRecorded(shortcut@),
            KeyboardEvent::RecordingCancelled => EventView::RecordingCancelled,
        }
    }
}

/// The view of an optional event.
pub open spec fn emitted_view(event: Option<KeyboardEvent>) -> Option<EventView> {
    match event {
        Some(e) => Some(e@),
        None => None,
    }
}

/// One transition of a physical key.
#[derive(Debug, Clone, Copy, PartialEq, Eq, Structural)]
pub enum KeyTransition {
    Press(KeyCode),
    Release(KeyCode),
}

/// The mutable state of the machine.
pub struct ListenerState {
    pressed_keys: Vec<KeyCode>,
    recording_active: bool,
    recording_shortcut: bool,
    recorded_keys: Vec<KeyCode>,
}

/// The state as a mathematical value.
pub struct StateView {
    /// The keys that are down, in the order in which they went down.
    pub pressed: Seq<KeyCode>,
    /// Whether the configured chord is engaged.
    pub recording_active: bool,
    /// Whether a new chord is being captured.
    pub capturing: bool,
    /// The keys seen since capture began, each once, in order.
    pub captured: Seq<KeyCode>,
}

impl StateView {
    /// The state of a machine that has seen nothing.
    pub open spec fn idle() -> StateView {
        StateView {
            pressed: Seq::empty(),
            recording_active: false,
            capturing: false,
            captured: Seq::empty(),
        }
    }

    /// No key is listed twice, neither among the pressed nor among the
    /// captured keys.
    pub open spec fn well_formed(self) -> bool {
        distinct(self.pressed) && distinct(self.captured)
    }
}

impl View for ListenerState {
    type V = StateView;

    closed spec fn view(&self) -> StateView {
        StateView {
            pressed: self.pressed_keys@,
            recording_active: self.recording_active,
            capturing: self.recording_shortcut,
            captured: self.recorded_keys@,
        }
    }
}

/// `keys` with `key` added at the end, unless it is there already.
pub open spec fn with_key(keys: Seq<KeyCode>, key: KeyCode) -> Seq<KeyCode> {
    if keys.contains(key) {
        keys
    } else {
        keys.push(key)
    }
}

/// A modifier that is down although the chord does not ask for it.
pub open spec fn extra_modifier(key: KeyCode, shortcut: ShortcutView) -> bool {
    is_modifier(key) && !shortcut.modifiers.contains(key) && key != shortcut.key
}

/// Whether the pressed keys satisfy the chord exactly: the main key is down,
/// every modifier is down, and no modifier is down that the chord does not
/// ask for.
pub open spec fn chord_active(pressed: Seq<KeyCode>, shortcut: ShortcutView) -> bool {
    &&& pressed.contains(shortcut.key)
    &&& forall|i: int|
        0 <= i < shortcut.modifiers.len() ==> pressed.contains(#[trigger] shortcut.modifiers[i])
    &&& forall|i: int| 0 <= i < pressed.len() ==> !extra_modifier(#[trigger] pressed[i], shortcut)
}

/// One step of the machine in normal operation.
pub open spec fn normal_step(state: StateView, shortcut: ShortcutView, event: KeyTransition) -> (
    StateView,
    Option<EventView>,
) {
    match event {
        KeyTransition::Press(key) => {
            let pressed = with_key(state.pressed, key);
            if chord_active(pressed, shortcut) {
                match shortcut.mode {
                    ShortcutMode::Hold => if state.recording_active {
                        (StateView { pressed, ..state }, None)
                    } else {
                        (
                            StateView { pressed, recording_active: true, ..state },
                            Some(EventView::RecordingKeyPressed),
                        )
                    },
                    ShortcutMode::Toggle => if state.recording_active {
                        (
                            StateView { pressed, recording_active: false, ..state },
                            Some(EventView::RecordingKeyReleased),
                        )
                    } else {
                        (
                            StateView { pressed, recording_active: true, ..state },
                            Some(EventView::RecordingKeyPressed),
                        )
                    },
                }
            } else if state.recording_active && shortcut.mode == ShortcutMode::Hold {
                (
                    StateView { pressed, recording_active: false, ..state },
                    Some(EventView::OtherKeyPressed),
                )
            } else {
                (StateView { pressed, ..state }, None)
            }
        },
        KeyTransition::Release(key) => {
            let pressed = without_key(state.pressed, key);
            if shortcut.mode == ShortcutMode::Hold && state.recording_active && !chord_active(
                pressed,
                shortcut,
            ) {
                (
                    StateView { pressed, recording_active: false, ..state },
                    Some(EventView::RecordingKeyReleased),
                )
            } else {
                (StateView { pressed, ..state }, None)
            }
        },
    }
}

/// One step of the machine while a new chord is captured.
pub open spec fn capture_step(state: StateView, event: KeyTransition) -> (
    StateView,
    Option<EventView>,
) {
    match event {
        KeyTransition::Press(key) => if key == KeyCode::Escape {
            (
                StateView {
                    pressed: Seq::empty(),
                    capturing: false,
                    captured: Seq::empty(),
                    ..state
                },
                Some(EventView::RecordingCancelled),
            )
        } else {
            (
                StateView {
                    pressed: with_key(state.pressed, key),
                    captured: with_key(state.captured, key),
                    ..state
                },
                None,
            )
        },
        KeyTransition::Release(key) => {
            let pressed = without_key(state.pressed, key);
            if state.captured.len() > 0 && pressed.len() == 0 {
                (
                    StateView { pressed, capturing: false, captured: Seq::empty(), ..state },
                    Some(
                        EventView::ShortcutRecorded(
                            ShortcutView {
                                mode: ShortcutMode::Hold,
                                key: chord_of(state.captured).0->0,
                                modifiers: chord_of(state.captured).1,
                            },
                        ),
                    ),
                )
            } else {
                (StateView { pressed, ..state }, None)
            }
        },
    }
}

/// One step of the machine.
pub open spec fn step(state: StateView, shortcut: ShortcutView, event: KeyTransition) -> (
    StateView,
    Option<EventView>,
) {
    if state.capturing {
        capture_step(state, event)
    } else {
        normal_step(state, shortcut, event)
    }
}

/// Adds `key` to `keys` unless it is there already.
fn add_key(keys: &mut Vec<KeyCode>, key: KeyCode)
    ensures
        final(keys)@ == with_key(old(keys)@, key),
{
    if !contains_key(keys.as_slice(), key) {
        keys.push(key);
    }
}

/// Whether the pressed keys satisfy the chord exactly.
pub fn is_shortcut_active(pressed_keys: &[KeyCode], shortcut: &RecordingShortcut) -> (active: bool)
    ensures
        active == chord_active(pressed_keys@, shortcut@),
{
    if !contains_key(pressed_keys, shortcut.key) {
        return false;
    }
    let mut i: usize = 0;
    while i < shortcut.modifiers.len()
        invariant
            i <= shortcut.modifiers.len(),
            forall|j: int| 0 <= j < i ==> pressed_keys@.contains(#[trigger] shortcut.modifiers@[j]),
        decreases shortcut.modifiers.len() - i,
    {
        if !contains_key(pressed_keys, shortcut.modifiers[i]) {
            assert(!pressed_keys@.contains(shortcut@.modifiers[i as int]));
            return false;
        }
        i += 1;
    }
    let mut k: usize = 0;
    while k < pressed_keys.len()
        invariant
            k <= pressed_keys.len(),
            forall|j: int| 0 <= j < k ==> !extra_modifier(#[trigger] pressed_keys@[j], shortcut@),
        decreases pressed_keys.len() - k,
    {
        let key = pressed_keys[k];
        if is_modifier_key(&key) && !contains_key(shortcut.modifiers.as_slice(), key) && key
            != shortcut.key {
            return false;
        }
        k += 1;
    }
    true
}

/// Handles one key transition while a new chord is captured.
///
/// Escape cancels. Any other press is remembered. The release that leaves no
/// key down ends the capture with the chord that the remembered keys stand
/// for, in hold mode.
pub fn handle_recording_event(event: KeyTransition, state: &mut ListenerState) -> (emitted: Option<
    KeyboardEvent,
>)
    ensures
        final(state)@ == capture_step(old(state)@, event).0,
        emitted_view(emitted) == capture_step(old(state)@, event).1,
{
    match event {
        KeyTransition::Press(key) => {
            if key == KeyCode::Escape {
                state.recording_shortcut = false;
                state.recorded_keys.clear();
                state.pressed_keys.clear();
                return Some(KeyboardEvent::RecordingCancelled);
            }
            add_key(&mut state.pressed_keys, key);
            add_key(&mut state.recorded_keys, key);
            None
        },
        KeyTransition::Release(key) => {
            remove_key(&mut state.pressed_keys, key);
            if state.recorded_keys.len() > 0 && state.pressed_keys.len() == 0 {
                proof {
                    lemma_chord_has_main_key(state.recorded_keys@);
                }
                let (main_key, modifiers) = extract_shortcut_from_keys(
                    state.recorded_keys.as_slice(),
                );
                match main_key {
                    Some(key) => {
                        let shortcut = RecordingShortcut { mode: ShortcutMode::Hold, key, modifiers };
                        state.recording_shortcut = false;
                        state.recorded_keys.clear();
                        Some(KeyboardEvent::ShortcutRecorded(shortcut))
                    },
                    None => None,
                }
            } else {
                None
            }
        },
    }
}

/// Handles one key transition.
///
/// In capture mode the transition goes to the capture logic. Otherwise a
/// press that completes the chord engages it (hold mode, once) or flips it
/// (toggle mode); a press that leaves a held chord unsatisfied, as that of
/// a modifier outside the chord does, cancels it; a release that breaks a
/// held chord disengages it.
pub fn handle_event(
    event: KeyTransition,
    shortcut: &RecordingShortcut,
    state: &mut ListenerState,
) -> (emitted: Option<KeyboardEvent>)
    ensures
        final(state)@ == step(old(state)@, shortcut@, event).0,
        emitted_view(emitted) == step(old(state)@, shortcut@, event).1,
{
    if state.recording_shortcut {
        return handle_recording_event(event, state);
    }
    match event {
        KeyTransition::Press(key) => {
            add_key(&mut state.pressed_keys, key);
            if is_shortcut_active(state.pressed_keys.as_slice(), shortcut) {
                match shortcut.mode {
                    ShortcutMode::Hold => {
                        if !state.recording_active {
                            state.recording_active = true;
                            Some(KeyboardEvent::RecordingKeyPressed)
                        } else {
                            None
                        }
                    },
                    ShortcutMode::Toggle => {
                        if state.recording_active {
                            state.recording_active = false;
                            Some(KeyboardEvent::RecordingKeyReleased)
                        } else {
                            state.recording_active = true;
                            Some(KeyboardEvent::RecordingKeyPressed)
                        }
                    },
                }
            } else if state.recording_active && shortcut.mode == ShortcutMode::Hold {
                state.recording_active = false;
                Some(KeyboardEvent::OtherKeyPressed)
            } else {
                None
            }
        },
        KeyTransition::Release(key) => {
            remove_key(&mut state.pressed_keys, key);
            if shortcut.mode == ShortcutMode::Hold && state.recording_active
                && !is_shortcut_active(state.pressed_keys.as_slice(), shortcut) {
                state.recording_active = false;
                Some(KeyboardEvent::RecordingKeyReleased)
            } else {
                None
            }
        },
    }
}

impl ListenerState {
    /// The state of a machine that has seen nothing.
    pub fn new() -> (state: Self)
        ensures
            state@ == StateView::idle(),
    {
        ListenerState {
            pressed_keys: Vec::new(),
            recording_active: false,
            recording_shortcut: false,
            recorded_keys: Vec::new(),
        }
    }

    /// The keys that are down.
    pub fn pressed_keys(&self) -> (keys: &Vec<KeyCode>)
        ensures
            keys@ == self@.pressed,
    {
        &self.pressed_keys
    }

    /// The keys seen since capture began.
    pub fn recorded_keys(&self) -> (keys: &Vec<KeyCode>)
        ensures
            keys@ == self@.captured,
    {
        &self.recorded_keys
    }

    /// Whether the configured chord is engaged.
    pub fn recording_active(&self) -> (active: bool)
        ensures
            active == self@.recording_active,
    {
        self.recording_active
    }

    /// Whether a new chord is being captured.
    pub fn recording_shortcut(&self) -> (capturing: bool)
        ensures
            capturing == self@.capturing,
    {
        self.recording_shortcut
    }
}

/// The hotkey machine: the configured chord and the key state.
pub struct KeyboardListener {
    shortcut: RecordingShortcut,
    state: ListenerState,
}

impl KeyboardListener {
    /// The configured chord.
    pub closed spec fn chord(&self) -> ShortcutView {
        self.shortcut@
    }

    /// The key state.
    pub closed spec fn state(&self) -> StateView {
        self.state@
    }

    /// A listener for `shortcut` that has seen nothing.
    pub fn new(shortcut: RecordingShortcut) -> (listener: Self)
        ensures
            listener.chord() == shortcut@,
            listener.state() == StateView::idle(),
    {
        KeyboardListener { shortcut, state: ListenerState::new() }
    }

    /// Enters capture mode, forgetting keys captured before.
    pub fn start_recording_shortcut(&mut self)
        ensures
            final(self).chord() == old(self).chord(),
            final(self).state() == (StateView {
                capturing: true,
                captured: Seq::empty(),
                ..old(self).state()
            }),
    {
        self.state.recording_shortcut = true;
        self.state.recorded_keys.clear();
    }

    /// Leaves capture mode, forgetting the keys captured so far.
    pub fn stop_recording_shortcut(&mut self)
        ensures
            final(self).chord() == old(self).chord(),
            final(self).state() == (StateView {
                capturing: false,
                captured: Seq::empty(),
                ..old(self).state()
            }),
    {
        self.state.recording_shortcut = false;
        self.state.recorded_keys.clear();
    }

    /// Replaces the configured chord as a whole.
    pub fn update_shortcut(&mut self, new_shortcut: RecordingShortcut)
        ensures
            final(self).chord() == new_shortcut@,
            final(self).state() == old(self).state(),
    {
        self.shortcut = new_shortcut;
    }

    /// Feeds one key transition to the machine and returns what it reports.
    /// The configured chord is never changed by a key.
    pub fn handle_key(&mut self, event: KeyTransition) -> (emitted: Option<KeyboardEvent>)
        ensures
            final(self).chord() == old(self).chord(),
            final(self).state() == step(old(self).state(), old(self).chord(), event).0,
            emitted_view(emitted) == step(old(self).state(), old(self).chord(), event).1,
    {
        handle_event(event, &self.shortcut, &mut self.state)
    }

    /// The configured chord.
    pub fn shortcut(&self) -> (shortcut: &RecordingShortcut)
        ensures
            shortcut@ == self.chord(),
    {
        &self.shortcut
    }

    /// Whether the configured chord is engaged.
    pub fn is_recording_active(&self) -> (active: bool)
        ensures
            active == self.state().recording_active,
    {
        self.state.recording_active()
    }

    /// Whether a new chord is being captured.
    pub fn is_recording_shortcut(&self) -> (capturing: bool)
        ensures
            capturing == self.state().capturing,
    {
        self.state.recording_shortcut()
    }
}

} // verus!
