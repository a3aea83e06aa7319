//! Configuration values as the pipeline receives them.

use vstd::prelude::*;
use vstd::string::*;
use crate::error::ConfigError;
use crate::keys::{KeyCode, Platform, ShortcutMode};
use crate::shortcut::{RecordingShortcut, ShortcutView};
use crate::validation::{text_view, validate_shortcut, validation_error_text, verdict};

verus! {

/// Who transcribes.
#[derive(Debug, Clone, Copy, PartialEq, Eq, Structural)]
pub enum SttProvider {
    OpenAI,
    Groq,
    LocalWhisper,
}

/// The sizes of the local transcription model.
#[derive(Debug, Clone, Copy, PartialEq, Eq, Structural)]
pub enum WhisperModel {
    Tiny,
    TinyEn,
    Base,
    BaseEn,
    Small,
    SmallEn,
    Medium,
    MediumEn,
    LargeV1,
    LargeV2,
    LargeV3,
}

/// Who cleans up transcripts.
#[derive(Debug, Clone, Copy, PartialEq, Eq, Structural)]
pub enum LlmProvider {
    OpenAI,
    Groq,
    Gemini,
}

/// Settings of local transcription.
#[derive(Debug, PartialEq, Eq)]
pub struct LocalWhisperConfig {
    pub model: WhisperModel,
    /// Where the model file lies, if not at its usual place.
    pub model_path: Option<String>,
}

/// Settings of batched local transcription.
#[derive(Debug, PartialEq, Eq)]
pub struct LightningWhisperConfig {
    pub model: String,
    pub batch_size: u32,
    /// `"4bit"`, `"8bit"`, or none.
    pub quantization: Option<String>,
}

/// Settings of transcript clean-up.
#[derive(Debug, PartialEq, Eq)]
pub struct PostProcessingConfig {
    pub enabled: bool,
    pub provider: LlmProvider,
    pub model: String,
    pub prompt: String,
}

/// The whole configuration.
#[derive(Debug, PartialEq, Eq)]
pub struct Config {
    pub stt_provider: SttProvider,
    pub openai_api_key: Option<String>,
    pub groq_api_key: Option<String>,
    pub openai_base_url: Option<String>,
    pub groq_base_url: Option<String>,
    pub openai_stt_model: Option<String>,
    pub openai_stt_prompt: Option<String>,
    pub groq_stt_model: Option<String>,
    pub groq_stt_prompt: Option<String>,
    pub local_whisper: LocalWhisperConfig,
    pub recording_shortcut: RecordingShortcut,
    pub post_processing: PostProcessingConfig,
}

/// Settings of the logging collaborator.
#[derive(Debug, PartialEq, Eq)]
pub struct TracingConfig {
    /// Directory for log files.
    pub log_dir: String,
    /// Application name for log files.
    pub app_name: String,
    pub console_output: bool,
    pub file_output: bool,
    /// Log level filter.
    pub log_level: String,
    pub ansi_colors: bool,
}

impl Default for LightningWhisperConfig {
    fn default() -> (config: Self)
        ensures
            config.model@ == "distil-medium.en"@,
            config.batch_size == 12,
            config.quantization is None,
    {
        LightningWhisperConfig {
            model: String::from_str("distil-medium.en"),
            batch_size: 12,
            quantization: None,
        }
    }
}

impl TracingConfig {
    /// The usual logging settings, with log files under `log_dir`.
    pub fn with_log_dir(log_dir: String) -> (config: Self)
        ensures
            config.log_dir == log_dir,
            config.app_name@ == "echoes"@,
            config.console_output,
            config.file_output,
            config.log_level@ == "echoes=debug,warn"@,
            config.ansi_colors,
    {
        TracingConfig {
            log_dir,
            app_name: String::from_str("echoes"),
            console_output: true,
            file_output: true,
            log_level: String::from_str("echoes=debug,warn"),
            ansi_colors: true,
        }
    }
}

impl Default for Config {
    /// Transcription by OpenAI with the public service addresses and usual
    /// models, the base model for local transcription, the left control key
    /// held as shortcut, and clean-up switched off.
    fn default() -> (config: Self)
        ensures
            config.stt_provider == SttProvider::OpenAI,
            config.openai_api_key is None,
            config.groq_api_key is None,
            text_view(config.openai_base_url) == Some("https://api.openai.com/v1"@),
            text_view(config.groq_base_url) == Some("https://api.groq.com/openai/v1"@),
            text_view(config.openai_stt_model) == Some("whisper-1"@),
            config.openai_stt_prompt is None,
            text_view(config.groq_stt_model) == Some("whisper-large-v3"@),
            config.groq_stt_prompt is None,
            config.local_whisper.model == WhisperModel::Base,
            config.local_whisper.model_path is None,
            config.recording_shortcut@ == (ShortcutView {
                mode: ShortcutMode::Hold,
                key: KeyCode::ControlLeft,
                modifiers: Seq::empty(),
            }),
            !config.post_processing.enabled,
            config.post_processing.provider == LlmProvider::OpenAI,
            config.post_processing.model@ == "gpt-4o-mini"@,
            config.post_processing.prompt@
                == "Clean up the following transcript, fixing any errors and improving clarity while preserving the original meaning:\n\n{transcript}"@,
    {
        Config {
            stt_provider: SttProvider::OpenAI,
            openai_api_key: None,
            groq_api_key: None,
            openai_base_url: Some(String::from_str("https://api.openai.com/v1")),
            groq_base_url: Some(String::from_str("https://api.groq.com/openai/v1")),
            openai_stt_model: Some(String::from_str("whisper-1")),
            openai_stt_prompt: None,
            groq_stt_model: Some(String::from_str("whisper-large-v3")),
            groq_stt_prompt: None,
            local_whisper: LocalWhisperConfig { model: WhisperModel::Base, model_path: None },
            recording_shortcut: RecordingShortcut::default(),
            post_processing: PostProcessingConfig {
                enabled: false,
                provider: LlmProvider::OpenAI,
                model: String::from_str("gpt-4o-mini"),
                prompt: String::from_str(
                    "Clean up the following transcript, fixing any errors and improving clarity while preserving the original meaning:\n\n{transcript}",
                ),
            },
        }
    }
}

impl Config {
    /// Validates the configuration: its shortcut has to be usable on
    /// `platform`.
    pub fn validate(&self, platform: Platform) -> (result: Result<(), ConfigError>)
        ensures
            result is Ok <==> verdict(self.recording_shortcut@, platform) is Ok,
            result matches Err(error) ==> (error matches ConfigError::ValidationError(text)
                && verdict(self.recording_shortcut@, platform) matches Err(reason) && text@
                == validation_error_text(reason)),
    {
        match validate_shortcut(&self.recording_shortcut, platform) {
            Ok(()) => Ok(()),
            Err(error) => Err(ConfigError::ValidationError(error.message())),
        }
    }
}

} // verus!
