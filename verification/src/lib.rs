//! Push-to-talk dictation capture: the hotkey state machine, shortcut
//! conflict detection, voice-activity segmentation, and the sample path
//! between the audio device and the segmenter.

pub mod capture;
pub mod config;
pub mod conflict;
pub mod detection;
pub mod error;
pub mod hotkey;
pub mod hotkey_laws;
pub mod keys;
pub mod permissions;
pub mod resample;
pub mod ring;
pub mod samples;
pub mod session;
pub mod shortcut;
pub mod vad;
pub mod validation;
pub mod vad_laws;

pub use keys::{KeyCode, Platform, ShortcutMode};
pub use keys::{format_keycode, is_modifier_key, modifier_sort_key, normalize_modifier};
pub use shortcut::{RecordingShortcut, extract_shortcut_from_keys, format_shortcut};
pub use conflict::{ConflictInfo, ConflictSeverity, check_shortcut_conflicts, has_error};
pub use detection::ConflictDetectionSystem;
pub use hotkey::{KeyTransition, KeyboardEvent, KeyboardListener, ListenerState};
pub use hotkey::{handle_event, handle_recording_event, is_shortcut_active};
pub use error::{AudioError, ConfigError, EchoesError, KeyboardError, LoggingError, PermissionError};
pub use error::{PlatformError, SttError, UiError};
pub use vad::{VadProcessor, collect_segments};
pub use resample::{needs_resampling, resample_inputs, resample_to_16khz};
pub use ring::{SampleReader, SampleWriter, sample_channel};
pub use capture::{AudioRecorder, AudioSession, SampleFormat};
pub use validation::{ValidationError, check_system_conflict, validate_shortcut};
pub use session::{DriverAction, KeyboardManager, SessionManager, ShortcutManager, handle_keyboard_event};
pub use config::{Config, LightningWhisperConfig, LlmProvider, LocalWhisperConfig, PostProcessingConfig};
pub use config::{SttProvider, TracingConfig, WhisperModel};
pub use permissions::{check_accessibility_permissions, ensure_permissions, get_required_permissions_description};
