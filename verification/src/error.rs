//! Error kinds of the capture pipeline.

use vstd::prelude::*;
use vstd::string::*;

verus! {

/// What can go wrong between the audio device and the finished segments.
#[derive(Debug, PartialEq, Eq)]
pub enum AudioError {
    /// No input device is available.
    NoInputDevice,
    /// The device or its stream could not be set up, or a conversion was
    /// asked for with parameters it cannot work with.
    StreamCreationFailed(String),
    /// The device delivers samples in a format other than the supported ones.
    UnsupportedFormat(String),
    /// Recording failed while it ran.
    RecordingFailed(String),
    /// Samples could not be encoded.
    WavEncodingFailed(String),
    /// A lock was poisoned by a panic elsewhere.
    MutexPoisoned,
    /// Segmentation was handed input it cannot work with.
    VadProcessingFailed(String),
    /// Anything else.
    Other(String),
}

/// An audio error as a mathematical value.
pub enum AudioErrorView {
    NoInputDevice,
    StreamCreationFailed(Seq<char>),
    UnsupportedFormat(Seq<char>),
    RecordingFailed(Seq<char>),
    WavEncodingFailed(Seq<char>),
    MutexPoisoned,
    VadProcessingFailed(Seq<char>),
    Other(Seq<char>),
}

impl View for AudioError {
    type V = AudioErrorView;

    open spec fn view(&self) -> AudioErrorView {
        match self {
            AudioError::NoInputDevice => AudioErrorView::NoInputDevice,
            AudioError::StreamCreationFailed(m) => AudioErrorView::StreamCreationFailed(m@),
            AudioError::UnsupportedFormat(m) => AudioErrorView::UnsupportedFormat(m@),
            AudioError::RecordingFailed(m) => AudioErrorView::RecordingFailed(m@),
            AudioError::WavEncodingFailed(m) => AudioErrorView::WavEncodingFailed(m@),
            AudioError::MutexPoisoned => AudioErrorView::MutexPoisoned,
            AudioError::VadProcessingFailed(m) => AudioErrorView::VadProcessingFailed(m@),
            AudioError::Other(m) => AudioErrorView::Other(m@),
        }
    }
}

/// The text of an audio error.
pub open spec fn audio_error_text(error: AudioErrorView) -> Seq<char> {
    match error {
        AudioErrorView::NoInputDevice => "No input device available"@,
        AudioErrorView::StreamCreationFailed(m) => "Stream creation failed: "@ + m,
        AudioErrorView::UnsupportedFormat(m) => "Unsupported sample format: "@ + m,
        AudioErrorView::RecordingFailed(m) => "Recording failed: "@ + m,
        AudioErrorView::WavEncodingFailed(m) => "WAV encoding failed: "@ + m,
        AudioErrorView::MutexPoisoned => "Mutex poisoned"@,
        AudioErrorView::VadProcessingFailed(m) => "VAD processing failed: "@ + m,
        AudioErrorView::Other(m) => "Other error: "@ + m,
    }
}

impl AudioError {
    /// The error as text.
    pub fn message(&self) -> (text: String)
        ensures
            text@ == audio_error_text(self@),
    {
        match self {
            AudioError::NoInputDevice => String::from_str("No input device available"),
            AudioError::StreamCreationFailed(m) => String::from_str(
                "Stream creation failed: ",
            ).concat(m.as_str()),
            AudioError::UnsupportedFormat(m) => String::from_str(
                "Unsupported sample format: ",
            ).concat(m.as_str()),
            AudioError::RecordingFailed(m) => String::from_str("Recording failed: ").concat(
                m.as_str(),
            ),
            AudioError::WavEncodingFailed(m) => String::from_str("WAV encoding failed: ").concat(
                m.as_str(),
            ),
            AudioError::MutexPoisoned => String::from_str("Mutex poisoned"),
            AudioError::VadProcessingFailed(m) => String::from_str(
                "VAD processing failed: ",
            ).concat(m.as_str()),
            AudioError::Other(m) => String::from_str("Other error: ").concat(m.as_str()),
        }
    }
}

/// Errors of the configuration collaborator.
#[derive(Debug, PartialEq, Eq)]
pub enum ConfigError {
    /// The configuration could not be read.
    LoadFailed(String),
    /// The configuration could not be written.
    SaveFailed(String),
    /// The configuration file does not parse.
    ParseError(String),
    /// A configuration value was refused.
    ValidationError(String),
    /// The configuration as a whole was refused.
    ValidationFailed(String),
    /// The configured shortcut cannot be used.
    InvalidShortcut(String),
}

/// The text of an error of this kind.
pub open spec fn config_error_text(error: ConfigError) -> Seq<char> {
    match error {
        ConfigError::LoadFailed(detail) => "Failed to load config: "@ + detail@,
        ConfigError::SaveFailed(detail) => "Failed to save config: "@ + detail@,
        ConfigError::ParseError(detail) => "Config parse error: "@ + detail@,
        ConfigError::ValidationError(detail) => "Validation error: "@ + detail@,
        ConfigError::ValidationFailed(detail) => "Config validation failed: "@ + detail@,
        ConfigError::InvalidShortcut(detail) => "Invalid shortcut: "@ + detail@,
    }
}

impl ConfigError {
    /// The error as text.
    pub fn message(&self) -> (text: String)
        ensures
            text@ == config_error_text(*self),
    {
        match self {
            ConfigError::LoadFailed(detail) => String::from_str("Failed to load config: ").concat(detail.as_str()),
            ConfigError::SaveFailed(detail) => String::from_str("Failed to save config: ").concat(detail.as_str()),
            ConfigError::ParseError(detail) => String::from_str("Config parse error: ").concat(detail.as_str()),
            ConfigError::ValidationError(detail) => String::from_str("Validation error: ").concat(detail.as_str()),
            ConfigError::ValidationFailed(detail) => String::from_str("Config validation failed: ").concat(detail.as_str()),
            ConfigError::InvalidShortcut(detail) => String::from_str("Invalid shortcut: ").concat(detail.as_str()),
        }
    }
}

/// Errors of the key listener.
#[derive(Debug, PartialEq, Eq)]
pub enum KeyboardError {
    /// The key hook could not be installed.
    ListenerStartFailed(String),
    /// The key hook could not be removed.
    ListenerStopFailed(String),
    /// Nobody listens for events any more.
    EventChannelClosed,
    /// The shortcut collides with another one.
    ShortcutConflict(String),
    /// A lock was poisoned by a panic elsewhere.
    MutexPoisoned,
}

/// The text of an error of this kind.
pub open spec fn keyboard_error_text(error: KeyboardError) -> Seq<char> {
    match error {
        KeyboardError::ListenerStartFailed(detail) => "Failed to start keyboard listener: "@ + detail@,
        KeyboardError::ListenerStopFailed(detail) => "Failed to stop keyboard listener: "@ + detail@,
        KeyboardError::EventChannelClosed => "Keyboard event channel closed unexpectedly"@,
        KeyboardError::ShortcutConflict(detail) => "Shortcut conflict: "@ + detail@,
        KeyboardError::MutexPoisoned => "Keyboard mutex was poisoned"@,
    }
}

impl KeyboardError {
    /// The error as text.
    pub fn message(&self) -> (text: String)
        ensures
            text@ == keyboard_error_text(*self),
    {
        match self {
            KeyboardError::ListenerStartFailed(detail) => String::from_str("Failed to start keyboard listener: ").concat(detail.as_str()),
            KeyboardError::ListenerStopFailed(detail) => String::from_str("Failed to stop keyboard listener: ").concat(detail.as_str()),
            KeyboardError::EventChannelClosed => String::from_str("Keyboard event channel closed unexpectedly"),
            KeyboardError::ShortcutConflict(detail) => String::from_str("Shortcut conflict: ").concat(detail.as_str()),
            KeyboardError::MutexPoisoned => String::from_str("Keyboard mutex was poisoned"),
        }
    }
}

/// Errors of the transcription collaborator.
#[derive(Debug, PartialEq, Eq)]
pub enum SttError {
    /// No key is configured for the provider.
    ApiKeyMissing(String),
    /// The service could not be reached.
    NetworkError(String),
    /// The service answered with something unexpected.
    InvalidResponse(String),
    /// The service is down.
    ServiceUnavailable(String),
    /// Too many requests.
    RateLimitExceeded,
    /// The service does not take the audio as it was sent.
    InvalidAudioFormat,
}

/// The text of an error of this kind.
pub open spec fn stt_error_text(error: SttError) -> Seq<char> {
    match error {
        SttError::ApiKeyMissing(detail) => "API key missing for "@ + detail@,
        SttError::NetworkError(detail) => "Network error: "@ + detail@,
        SttError::InvalidResponse(detail) => "Invalid response from STT service: "@ + detail@,
        SttError::ServiceUnavailable(detail) => "STT service unavailable: "@ + detail@,
        SttError::RateLimitExceeded => "Rate limit exceeded"@,
        SttError::InvalidAudioFormat => "Invalid audio format for STT service"@,
    }
}

impl SttError {
    /// The error as text.
    pub fn message(&self) -> (text: String)
        ensures
            text@ == stt_error_text(*self),
    {
        match self {
            SttError::ApiKeyMissing(detail) => String::from_str("API key missing for ").concat(detail.as_str()),
            SttError::NetworkError(detail) => String::from_str("Network error: ").concat(detail.as_str()),
            SttError::InvalidResponse(detail) => String::from_str("Invalid response from STT service: ").concat(detail.as_str()),
            SttError::ServiceUnavailable(detail) => String::from_str("STT service unavailable: ").concat(detail.as_str()),
            SttError::RateLimitExceeded => String::from_str("Rate limit exceeded"),
            SttError::InvalidAudioFormat => String::from_str("Invalid audio format for STT service"),
        }
    }
}

/// Errors about system permissions.
#[derive(Debug, PartialEq, Eq)]
pub enum PermissionError {
    /// Key events may not be observed.
    AccessibilityDenied,
    /// The microphone may not be used.
    MicrophoneDenied,
    /// The system's permission interface failed.
    SystemApiError(String),
}

/// The text of an error of this kind.
pub open spec fn permission_error_text(error: PermissionError) -> Seq<char> {
    match error {
        PermissionError::AccessibilityDenied => "Accessibility permissions required. Please grant access in System Settings > Privacy & Security > Accessibility"@,
        PermissionError::MicrophoneDenied => "Microphone access denied. Please grant microphone permissions"@,
        PermissionError::SystemApiError(detail) => "System API error: "@ + detail@,
    }
}

impl PermissionError {
    /// The error as text.
    pub fn message(&self) -> (text: String)
        ensures
            text@ == permission_error_text(*self),
    {
        match self {
            PermissionError::AccessibilityDenied => String::from_str("Accessibility permissions required. Please grant access in System Settings > Privacy & Security > Accessibility"),
            PermissionError::MicrophoneDenied => String::from_str("Microphone access denied. Please grant microphone permissions"),
            PermissionError::SystemApiError(detail) => String::from_str("System API error: ").concat(detail.as_str()),
        }
    }
}

/// Errors of the logging collaborator.
#[derive(Debug, PartialEq, Eq)]
pub enum LoggingError {
    /// The log file could not be created.
    FileCreationFailed(String),
    /// The log could not be written to.
    WriteFailed(String),
    /// A lock was poisoned by a panic elsewhere.
    MutexPoisoned,
    /// The logging settings are unusable.
    InvalidConfiguration(String),
    /// Logging could not be set up.
    TracingInitFailed(String),
}

/// The text of an error of this kind.
pub open spec fn logging_error_text(error: LoggingError) -> Seq<char> {
    match error {
        LoggingError::FileCreationFailed(detail) => "Failed to create log file: "@ + detail@,
        LoggingError::WriteFailed(detail) => "Failed to write to log: "@ + detail@,
        LoggingError::MutexPoisoned => "Logging mutex was poisoned"@,
        LoggingError::InvalidConfiguration(detail) => "Invalid log configuration: "@ + detail@,
        LoggingError::TracingInitFailed(detail) => "Tracing initialization failed: "@ + detail@,
    }
}

impl LoggingError {
    /// The error as text.
    pub fn message(&self) -> (text: String)
        ensures
            text@ == logging_error_text(*self),
    {
        match self {
            LoggingError::FileCreationFailed(detail) => String::from_str("Failed to create log file: ").concat(detail.as_str()),
            LoggingError::WriteFailed(detail) => String::from_str("Failed to write to log: ").concat(detail.as_str()),
            LoggingError::MutexPoisoned => String::from_str("Logging mutex was poisoned"),
            LoggingError::InvalidConfiguration(detail) => String::from_str("Invalid log configuration: ").concat(detail.as_str()),
            LoggingError::TracingInitFailed(detail) => String::from_str("Tracing initialization failed: ").concat(detail.as_str()),
        }
    }
}

/// Errors of the graphical shell.
#[derive(Debug, PartialEq, Eq)]
pub enum UiError {
    /// The shell could not start.
    InitializationFailed(String),
    /// The shell could not draw.
    RenderingError(String),
}

/// The text of an error of this kind.
pub open spec fn ui_error_text(error: UiError) -> Seq<char> {
    match error {
        UiError::InitializationFailed(detail) => "Failed to initialize UI: "@ + detail@,
        UiError::RenderingError(detail) => "UI rendering error: "@ + detail@,
    }
}

impl UiError {
    /// The error as text.
    pub fn message(&self) -> (text: String)
        ensures
            text@ == ui_error_text(*self),
    {
        match self {
            UiError::InitializationFailed(detail) => String::from_str("Failed to initialize UI: ").concat(detail.as_str()),
            UiError::RenderingError(detail) => String::from_str("UI rendering error: ").concat(detail.as_str()),
        }
    }
}

/// Errors of platform integration.
#[derive(Debug, PartialEq, Eq)]
pub enum PlatformError {
    /// The user or the system refused a permission.
    PermissionDenied(String),
    /// The platform lacks the feature.
    PlatformNotSupported(String),
    /// A system call failed.
    SystemError(String),
}

/// The text of an error of this kind.
pub open spec fn platform_error_text(error: PlatformError) -> Seq<char> {
    match error {
        PlatformError::PermissionDenied(detail) => "Permission denied: "@ + detail@,
        PlatformError::PlatformNotSupported(detail) => "Platform not supported: "@ + detail@,
        PlatformError::SystemError(detail) => "System error: "@ + detail@,
    }
}

impl PlatformError {
    /// The error as text.
    pub fn message(&self) -> (text: String)
        ensures
            text@ == platform_error_text(*self),
    {
        match self {
            PlatformError::PermissionDenied(detail) => String::from_str("Permission denied: ").concat(detail.as_str()),
            PlatformError::PlatformNotSupported(detail) => String::from_str("Platform not supported: ").concat(detail.as_str()),
            PlatformError::SystemError(detail) => String::from_str("System error: ").concat(detail.as_str()),
        }
    }
}

/// Any error of the application.
#[derive(Debug, PartialEq, Eq)]
pub enum EchoesError {
    /// Capture and processing.
    Audio(AudioError),
    /// Configuration.
    Config(ConfigError),
    /// The key listener.
    Keyboard(KeyboardError),
    /// Transcription.
    Stt(SttError),
    /// System permissions.
    Permission(PermissionError),
    /// Logging.
    Logging(LoggingError),
    /// The graphical shell.
    Ui(UiError),
    /// Input or output failed; the text is the system's.
    Io(String),
    /// Anything else.
    Other(String),
}

/// The text of an application error: the kind, then the text of the error
/// inside.
pub open spec fn echoes_error_text(error: EchoesError) -> Seq<char> {
    match error {
        EchoesError::Audio(e) => "Audio error: "@ + audio_error_text(e@),
        EchoesError::Config(e) => "Configuration error: "@ + config_error_text(e),
        EchoesError::Keyboard(e) => "Keyboard error: "@ + keyboard_error_text(e),
        EchoesError::Stt(e) => "STT service error: "@ + stt_error_text(e),
        EchoesError::Permission(e) => "Permission error: "@ + permission_error_text(e),
        EchoesError::Logging(e) => "Logging error: "@ + logging_error_text(e),
        EchoesError::Ui(e) => "UI error: "@ + ui_error_text(e),
        EchoesError::Io(detail) => "IO error: "@ + detail@,
        EchoesError::Other(detail) => "Error: "@ + detail@,
    }
}

impl EchoesError {
    /// The error as text.
    pub fn message(&self) -> (text: String)
        ensures
            text@ == echoes_error_text(*self),
    {
        match self {
            EchoesError::Audio(e) => String::from_str("Audio error: ").concat(e.message().as_str()),
            EchoesError::Config(e) => String::from_str("Configuration error: ").concat(e.message().as_str()),
            EchoesError::Keyboard(e) => String::from_str("Keyboard error: ").concat(e.message().as_str()),
            EchoesError::Stt(e) => String::from_str("STT service error: ").concat(e.message().as_str()),
            EchoesError::Permission(e) => String::from_str("Permission error: ").concat(e.message().as_str()),
            EchoesError::Logging(e) => String::from_str("Logging error: ").concat(e.message().as_str()),
            EchoesError::Ui(e) => String::from_str("UI error: ").concat(e.message().as_str()),
            EchoesError::Io(detail) => String::from_str("IO error: ").concat(detail.as_str()),
            EchoesError::Other(detail) => String::from_str("Error: ").concat(detail.as_str()),
        }
    }
}

impl From<AudioError> for EchoesError {
    fn from(error: AudioError) -> (wrapped: EchoesError)
        ensures
            wrapped == EchoesError::Audio(error),
    {
        EchoesError::Audio(error)
    }
}

impl vstd::std_specs::convert::FromSpecImpl<AudioError> for EchoesError {
    open spec fn obeys_from_spec() -> bool {
        true
    }

    open spec fn from_spec(error: AudioError) -> EchoesError {
        EchoesError::Audio(error)
    }
}

impl From<ConfigError> for EchoesError {
    fn from(error: ConfigError) -> (wrapped: EchoesError)
        ensures
            wrapped == EchoesError::Config(error),
    {
        EchoesError::Config(error)
    }
}

impl vstd::std_specs::convert::FromSpecImpl<ConfigError> for EchoesError {
    open spec fn obeys_from_spec() -> bool {
        true
    }

    open spec fn from_spec(error: ConfigError) -> EchoesError {
        EchoesError::Config(error)
    }
}

impl From<KeyboardError> for EchoesError {
    fn from(error: KeyboardError) -> (wrapped: EchoesError)
        ensures
            wrapped == EchoesError::Keyboard(error),
    {
        EchoesError::Keyboard(error)
    }
}

impl vstd::std_specs::convert::FromSpecImpl<KeyboardError> for EchoesError {
    open spec fn obeys_from_spec() -> bool {
        true
    }

    open spec fn from_spec(error: KeyboardError) -> EchoesError {
        EchoesError::Keyboard(error)
    }
}

impl From<SttError> for EchoesError {
    fn from(error: SttError) -> (wrapped: EchoesError)
        ensures
            wrapped == EchoesError::Stt(error),
    {
        EchoesError::Stt(error)
    }
}

impl vstd::std_specs::convert::FromSpecImpl<SttError> for EchoesError {
    open spec fn obeys_from_spec() -> bool {
        true
    }

    open spec fn from_spec(error: SttError) -> EchoesError {
        EchoesError::Stt(error)
    }
}

impl From<PermissionError> for EchoesError {
    fn from(error: PermissionError) -> (wrapped: EchoesError)
        ensures
            wrapped == EchoesError::Permission(error),
    {
        EchoesError::Permission(error)
    }
}

impl vstd::std_specs::convert::FromSpecImpl<PermissionError> for EchoesError {
    open spec fn obeys_from_spec() -> bool {
        true
    }

    open spec fn from_spec(error: PermissionError) -> EchoesError {
        EchoesError::Permission(error)
    }
}

impl From<LoggingError> for EchoesError {
    fn from(error: LoggingError) -> (wrapped: EchoesError)
        ensures
            wrapped == EchoesError::Logging(error),
    {
        EchoesError::Logging(error)
    }
}

impl vstd::std_specs::convert::FromSpecImpl<LoggingError> for EchoesError {
    open spec fn obeys_from_spec() -> bool {
        true
    }

    open spec fn from_spec(error: LoggingError) -> EchoesError {
        EchoesError::Logging(error)
    }
}

impl From<UiError> for EchoesError {
    fn from(error: UiError) -> (wrapped: EchoesError)
        ensures
            wrapped == EchoesError::Ui(error),
    {
        EchoesError::Ui(error)
    }
}

impl vstd::std_specs::convert::FromSpecImpl<UiError> for EchoesError {
    open spec fn obeys_from_spec() -> bool {
        true
    }

    open spec fn from_spec(error: UiError) -> EchoesError {
        EchoesError::Ui(error)
    }
}

} // verus!
