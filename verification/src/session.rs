//! The consumer's side: session state, the queue of hotkey events, and what
//! each event makes the driver do.

use vstd::prelude::*;
use vstd::string::*;
use crate::hotkey::{
    EventView,
    KeyTransition,
    KeyboardEvent,
    KeyboardListener,
    StateView,
    emitted_view,
    step,
};
use crate::shortcut::{RecordingShortcut, ShortcutView};

verus! {

/// The most log lines a session keeps.
pub const MAX_LOGS: usize = 100;

/// Session state: whether audio is being recorded, whether a new chord is
/// being captured, the log, and the error to show.
pub struct SessionManager {
    pub recording: bool,
    pub recording_shortcut: bool,
    pub logs: Vec<String>,
    pub error_message: Option<String>,
}

/// The texts of a list of lines.
pub open spec fn line_texts(lines: Seq<String>) -> Seq<Seq<char>> {
    lines.map_values(|line: String| line@)
}

/// A log line: the time in square brackets, then the message.
pub open spec fn log_line(timestamp: Seq<char>, message: Seq<char>) -> Seq<char> {
    "["@ + timestamp + "] "@ + message
}

/// The log after one more line: the oldest line goes when the log would
/// grow past `MAX_LOGS`.
pub open spec fn log_after(lines: Seq<Seq<char>>, line: Seq<char>) -> Seq<Seq<char>> {
    if lines.len() + 1 > MAX_LOGS {
        lines.push(line).skip(1)
    } else {
        lines.push(line)
    }
}

impl SessionManager {
    /// A session in which nothing is going on yet.
    pub fn new() -> (session: Self)
        ensures
            !session.recording,
            !session.recording_shortcut,
            line_texts(session.logs@) == seq!["App started"@],
            session.error_message is None,
    {
        let mut logs: Vec<String> = Vec::new();
        logs.push(String::from_str("App started"));
        SessionManager { recording: false, recording_shortcut: false, logs, error_message: None }
    }

    /// Adds a line to the log. `timestamp` is the time of day as text.
    pub fn add_log(&mut self, timestamp: &str, message: &str)
        ensures
            line_texts(final(self).logs@) == log_after(
                line_texts(old(self).logs@),
                log_line(timestamp@, message@),
            ),
            final(self).recording == old(self).recording,
            final(self).recording_shortcut == old(self).recording_shortcut,
            final(self).error_message == old(self).error_message,
    {
        let line = String::from_str("[").concat(timestamp).concat("] ").concat(message);
        self.logs.push(line);
        if self.logs.len() > MAX_LOGS {
            self.logs.remove(0);
        }
    }

    /// Sets or clears the error to show.
    pub fn set_error(&mut self, error: Option<String>)
        ensures
            *final(self) == (SessionManager { error_message: error, ..*old(self) }),
    {
        self.error_message = error;
    }

    pub fn start_recording(&mut self)
        ensures
            *final(self) == (SessionManager { recording: true, ..*old(self) }),
    {
        self.recording = true;
    }

    pub fn stop_recording(&mut self)
        ensures
            *final(self) == (SessionManager { recording: false, ..*old(self) }),
    {
        self.recording = false;
    }

    pub fn start_shortcut_recording(&mut self)
        ensures
            *final(self) == (SessionManager { recording_shortcut: true, ..*old(self) }),
    {
        self.recording_shortcut = true;
    }

    pub fn stop_shortcut_recording(&mut self)
        ensures
            *final(self) == (SessionManager { recording_shortcut: false, ..*old(self) }),
    {
        self.recording_shortcut = false;
    }
}

/// The chord that capture mode produced, until it is taken, and whether the
/// visual editor is shown.
pub struct ShortcutManager {
    pub recorded_shortcut: Option<RecordingShortcut>,
    pub show_visual_editor: bool,
}

impl ShortcutManager {
    pub fn new() -> (manager: Self)
        ensures
            manager.recorded_shortcut is None,
            !manager.show_visual_editor,
    {
        ShortcutManager { recorded_shortcut: None, show_visual_editor: false }
    }

    /// Remembers a captured chord.
    pub fn record_shortcut(&mut self, shortcut: RecordingShortcut)
        ensures
            *final(self) == (ShortcutManager { recorded_shortcut: Some(shortcut), ..*old(self) }),
    {
        self.recorded_shortcut = Some(shortcut);
    }

    /// Hands out the captured chord, once.
    pub fn take_recorded(&mut self) -> (shortcut: Option<RecordingShortcut>)
        ensures
            shortcut == old(self).recorded_shortcut,
            *final(self) == (ShortcutManager { recorded_shortcut: None, ..*old(self) }),
    {
        self.recorded_shortcut.take()
    }

    /// Forgets the captured chord.
    pub fn clear_recorded(&mut self)
        ensures
            *final(self) == (ShortcutManager { recorded_shortcut: None, ..*old(self) }),
    {
        self.recorded_shortcut = None;
    }

    pub fn toggle_visual_editor(&mut self)
        ensures
            *final(self) == (ShortcutManager {
                show_visual_editor: !old(self).show_visual_editor,
                ..*old(self)
            }),
    {
        self.show_visual_editor = !self.show_visual_editor;
    }

    pub fn set_visual_editor(&mut self, show: bool)
        ensures
            *final(self) == (ShortcutManager { show_visual_editor: show, ..*old(self) }),
    {
        self.show_visual_editor = show;
    }
}

/// The hotkey machine together with the queue of events that it has
/// reported and the consumer has not fetched yet.
pub struct KeyboardManager {
    listener: Option<KeyboardListener>,
    queue: Vec<KeyboardEvent>,
    receiving: bool,
    permissions_granted: bool,
}

/// The events of a list, as mathematical values.
pub open spec fn event_views(events: Seq<KeyboardEvent>) -> Seq<EventView> {
    events.map_values(|event: KeyboardEvent| event@)
}

/// A queue with one more event, or as it was for no event.
pub open spec fn queue_after(queue: Seq<EventView>, event: Option<EventView>) -> Seq<EventView> {
    match event {
        Some(e) => queue.push(e),
        None => queue,
    }
}

impl KeyboardManager {
    /// The machine's chord and state, once there is a machine.
    pub closed spec fn machine(&self) -> Option<(ShortcutView, StateView)> {
        match self.listener {
            Some(listener) => Some((listener.chord(), listener.state())),
            None => None,
        }
    }

    /// The events waiting to be fetched, oldest first.
    pub closed spec fn pending(&self) -> Seq<EventView> {
        event_views(self.queue@)
    }

    /// Whether events are still taken in.
    pub closed spec fn receiving(&self) -> bool {
        self.receiving
    }

    /// Whether the permission to observe keys was granted.
    pub closed spec fn granted(&self) -> bool {
        self.permissions_granted
    }

    /// A manager without a machine.
    pub fn new() -> (manager: Self)
        ensures
            manager.machine() is None,
            manager.pending() == Seq::<EventView>::empty(),
            !manager.receiving(),
            !manager.granted(),
    {
        let manager = KeyboardManager {
            listener: None,
            queue: Vec::new(),
            receiving: false,
            permissions_granted: false,
        };
        manager
    }

    /// Sets the machine up for `shortcut`, given the outcome of the
    /// permission check. Without the permission there is no machine.
    pub fn init(&mut self, shortcut: RecordingShortcut, permissions: Result<bool, String>) -> (result:
        Result<(), String>)
        ensures
            result is Ok <==> permissions == Ok::<bool, String>(true),
            final(self).granted() == (result is Ok),
            result is Ok ==> final(self).machine() == Some((shortcut@, StateView::idle()))
                && final(self).pending() == Seq::<EventView>::empty() && final(self).receiving(),
            result is Err ==> final(self).machine() == old(self).machine() && final(self).pending()
                == old(self).pending() && final(self).receiving() == old(self).receiving(),
            result matches Err(text) ==> text@ == (match permissions {
                Err(reason) => reason@,
                _ => "Permissions not granted"@,
            }),
    {
        match permissions {
            Ok(true) => {
                self.permissions_granted = true;
                self.listener = Some(KeyboardListener::new(shortcut));
                self.queue = Vec::new();
                self.receiving = true;
                Ok(())
            },
            Ok(false) => {
                self.permissions_granted = false;
                Err(String::from_str("Permissions not granted"))
            },
            Err(reason) => {
                self.permissions_granted = false;
                Err(reason)
            },
        }
    }

    /// Replaces the machine's chord, if there is a machine.
    pub fn update_shortcut(&mut self, shortcut: RecordingShortcut)
        ensures
            final(self).machine() == (match old(self).machine() {
                Some((_, state)) => Some((shortcut@, state)),
                None => None,
            }),
            final(self).pending() == old(self).pending(),
            final(self).receiving() == old(self).receiving(),
            final(self).granted() == old(self).granted(),
    {
        match self.listener.take() {
            Some(mut listener) => {
                listener.update_shortcut(shortcut);
                self.listener = Some(listener);
            },
            None => {},
        }
    }

    /// Puts the machine into capture mode, if there is a machine.
    pub fn start_recording_shortcut(&mut self)
        ensures
            final(self).machine() == (match old(self).machine() {
                Some((chord, state)) => Some(
                    (chord, StateView { capturing: true, captured: Seq::empty(), ..state }),
                ),
                None => None,
            }),
            final(self).pending() == old(self).pending(),
            final(self).receiving() == old(self).receiving(),
            final(self).granted() == old(self).granted(),
    {
        match self.listener.take() {
            Some(mut listener) => {
                listener.start_recording_shortcut();
                self.listener = Some(listener);
            },
            None => {},
        }
    }

    /// Takes the machine out of capture mode, if there is a machine.
    pub fn stop_recording_shortcut(&mut self)
        ensures
            final(self).machine() == (match old(self).machine() {
                Some((chord, state)) => Some(
                    (chord, StateView { capturing: false, captured: Seq::empty(), ..state }),
                ),
                None => None,
            }),
            final(self).pending() == old(self).pending(),
            final(self).receiving() == old(self).receiving(),
            final(self).granted() == old(self).granted(),
    {
        match self.listener.take() {
            Some(mut listener) => {
                listener.stop_recording_shortcut();
                self.listener = Some(listener);
            },
            None => {},
        }
    }

    /// Feeds a key transition to the machine. What the machine reports is
    /// queued behind the events already waiting, while events are taken in.
    pub fn handle_key(&mut self, event: KeyTransition)
        ensures
            final(self).receiving() == old(self).receiving(),
            final(self).granted() == old(self).granted(),
            old(self).machine() is None ==> final(self).machine() is None && final(self).pending()
                == old(self).pending(),
            old(self).machine() matches Some((chord, state)) ==> final(self).machine() == Some(
                (chord, step(state, chord, event).0),
            ) && final(self).pending() == if old(self).receiving() {
                queue_after(old(self).pending(), step(state, chord, event).1)
            } else {
                old(self).pending()
            },
    {
        match self.listener.take() {
            Some(mut listener) => {
                let emitted = listener.handle_key(event);
                self.listener = Some(listener);
                if self.receiving {
                    match emitted {
                        Some(reported) => {
                            self.queue.push(reported);
                        },
                        None => {},
                    }
                }
            },
            None => {},
        }
    }

    /// Queues the error with which the key hook ended, while events are
    /// taken in.
    pub fn listener_failed(&mut self, message: String)
        ensures
            final(self).machine() == old(self).machine(),
            final(self).receiving() == old(self).receiving(),
            final(self).granted() == old(self).granted(),
            final(self).pending() == if old(self).receiving() {
                old(self).pending().push(EventView::ListenerError(message@))
            } else {
                old(self).pending()
            },
    {
        if self.receiving {
            self.queue.push(KeyboardEvent::ListenerError(message));
        }
    }

    /// Fetches the waiting events without waiting for more, in the order in
    /// which they were reported.
    pub fn try_recv_event(&mut self) -> (events: Vec<KeyboardEvent>)
        ensures
            event_views(events@) == old(self).pending(),
            final(self).pending() == Seq::<EventView>::empty(),
            final(self).machine() == old(self).machine(),
            final(self).receiving() == old(self).receiving(),
            final(self).granted() == old(self).granted(),
    {
        let mut events: Vec<KeyboardEvent> = Vec::new();
        events.append(&mut self.queue);
        events
    }

    /// Stops taking events in and drops those that wait.
    pub fn clear_receiver(&mut self)
        ensures
            !final(self).receiving(),
            final(self).pending() == Seq::<EventView>::empty(),
            final(self).machine() == old(self).machine(),
            final(self).granted() == old(self).granted(),
    {
        self.receiving = false;
        self.queue = Vec::new();
    }

    /// Whether the permission to observe keys was granted.
    pub fn permissions_granted(&self) -> (granted: bool)
        ensures
            granted == self.granted(),
    {
        self.permissions_granted
    }

    /// Whether there is a machine.
    pub fn has_listener(&self) -> (present: bool)
        ensures
            present == (self.machine() is Some),
    {
        self.listener.is_some()
    }
}

/// What the driver has to do with the audio device after an event.
#[derive(Debug, Clone, Copy, PartialEq, Eq, Structural)]
pub enum DriverAction {
    Nothing,
    /// Start capturing audio.
    StartCapture,
    /// Stop capturing and process what was captured.
    StopAndProcess,
    /// Stop capturing and throw away what was captured.
    StopAndDiscard,
}

/// What an event asks of the audio device, given whether audio is being
/// recorded.
pub open spec fn action_for(recording: bool, event: EventView) -> DriverAction {
    match event {
        EventView::RecordingKeyPressed => if recording {
            DriverAction::Nothing
        } else {
            DriverAction::StartCapture
        },
        EventView::RecordingKeyReleased => if recording {
            DriverAction::StopAndProcess
        } else {
            DriverAction::Nothing
        },
        EventView::OtherKeyPressed => if recording {
            DriverAction::StopAndDiscard
        } else {
            DriverAction::Nothing
        },
        _ => DriverAction::Nothing,
    }
}

/// Whether audio is being recorded after an event.
pub open spec fn recording_after(recording: bool, event: EventView) -> bool {
    match event {
        EventView::RecordingKeyPressed => true,
        EventView::RecordingKeyReleased => false,
        EventView::OtherKeyPressed => false,
        _ => recording,
    }
}

/// Applies one hotkey event to the consumer's state and says what to do
/// with the audio device.
///
/// The recording events switch the recording flag. A listener error is
/// kept as the error to show, and no further events are taken in. A
/// captured chord is remembered and ends capture mode; a cancelled capture
/// ends it with nothing remembered.
pub fn handle_keyboard_event(
    session: &mut SessionManager,
    shortcuts: &mut ShortcutManager,
    keyboard: &mut KeyboardManager,
    event: KeyboardEvent,
) -> (action: DriverAction)
    ensures
        action == action_for(old(session).recording, event@),
        final(session).recording == recording_after(old(session).recording, event@),
        final(session).logs == old(session).logs,
        final(session).recording_shortcut == (match event {
            KeyboardEvent::ShortcutRecorded(_) => false,
            KeyboardEvent::RecordingCancelled => false,
            _ => old(session).recording_shortcut,
        }),
        final(session).error_message == (match event {
            KeyboardEvent::ListenerError(message) => Some(message),
            _ => old(session).error_message,
        }),
        final(shortcuts).show_visual_editor == old(shortcuts).show_visual_editor,
        final(shortcuts).recorded_shortcut == (match event {
            KeyboardEvent::ShortcutRecorded(shortcut) => Some(shortcut),
            KeyboardEvent::RecordingCancelled => None,
            _ => old(shortcuts).recorded_shortcut,
        }),
        final(keyboard).machine() == old(keyboard).machine(),
        final(keyboard).granted() == old(keyboard).granted(),
        event is ListenerError ==> !final(keyboard).receiving() && final(keyboard).pending()
            == Seq::<EventView>::empty(),
        !(event is ListenerError) ==> final(keyboard).receiving() == old(keyboard).receiving()
            && final(keyboard).pending() == old(keyboard).pending(),
{
    match event {
        KeyboardEvent::RecordingKeyPressed => {
            if !session.recording {
                session.start_recording();
                DriverAction::StartCapture
            } else {
                DriverAction::Nothing
            }
        },
        KeyboardEvent::RecordingKeyReleased => {
            if session.recording {
                session.stop_recording();
                DriverAction::StopAndProcess
            } else {
                DriverAction::Nothing
            }
        },
        KeyboardEvent::OtherKeyPressed => {
            if session.recording {
                session.stop_recording();
                DriverAction::StopAndDiscard
            } else {
                DriverAction::Nothing
            }
        },
        KeyboardEvent::ListenerError(message) => {
            session.set_error(Some(message));
            keyboard.clear_receiver();
            DriverAction::Nothing
        },
        KeyboardEvent::ShortcutRecorded(shortcut) => {
            shortcuts.record_shortcut(shortcut);
            session.stop_shortcut_recording();
            DriverAction::Nothing
        },
        KeyboardEvent::RecordingCancelled => {
            session.stop_shortcut_recording();
            shortcuts.clear_recorded();
            DriverAction::Nothing
        },
    }
}

} // verus!
