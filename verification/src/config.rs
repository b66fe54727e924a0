//! Application configuration and its validation rules.
//!
//! Loading the configuration file and decoding it are I/O and live outside
//! the library; the validation rules that decide whether a decoded
//! configuration may start the pipeline are verified here.

use vstd::prelude::*;

verus! {

/// Why a configuration was rejected: the file could not be read, it could
/// not be decoded, or it was decoded but breaks a validation rule. The
/// message carried by the first two is produced by the loader.
#[derive(Debug)]
pub enum ConfigError {
    Io(String),
    Parse(String),
    ValidationError(String),
}

/// Verbosity of the debug log.
#[derive(Debug, Clone, Copy, PartialEq, Eq, Structural)]
pub enum LogLevel {
    Error,
    Warn,
    Info,
    Debug,
    Trace,
}

/// One chat channel a transcript can be sent to: a display name for the UI
/// and the chat-command prefix that selects the channel.
#[derive(Debug, Clone)]
pub struct ChatChannel {
    pub display: String,
    pub prefix: String,
}

/// Two chat channels are the same channel when they share a prefix, whatever
/// their display names.
impl PartialEq for ChatChannel {
    fn eq(&self, other: &Self) -> (r: bool) {
        self.prefix == other.prefix
    }
}

impl vstd::std_specs::cmp::PartialEqSpecImpl for ChatChannel {
    open spec fn obeys_eq_spec() -> bool {
        true
    }

    open spec fn eq_spec(&self, other: &Self) -> bool {
        self.prefix@ == other.prefix@
    }
}

/// The application's configuration, as decoded from the configuration file.
#[derive(Debug, Clone)]
pub struct Config {
    pub btn_id_offset: u8,
    pub debug_log_level: LogLevel,
    pub chat_channels: Vec<ChatChannel>,
    pub debug_audio_resampling: bool,
    pub insim_host: String,
    pub insim_port: String,
    pub message_preview_timeout_secs: u64,
    pub model_path: String,
    pub recording_timeout_secs: u8,
    pub ui_offset_left: u8,
    pub ui_offset_top: u8,
    pub ui_scale: u8,
    pub use_gpu: bool,
}

impl Config {
    /// Every rule `validate` enforces: at least one chat channel, each with a
    /// non-empty display name; a positive UI scale; UI offsets at most 200; a
    /// non-empty model path; a button id offset at most 230.
    pub open spec fn spec_valid(self) -> bool {
        &&& self.chat_channels@.len() > 0
        &&& self.ui_scale != 0
        &&& self.ui_offset_top <= 200
        &&& self.ui_offset_left <= 200
        &&& self.model_path@.len() > 0
        &&& self.btn_id_offset <= 230
        &&& forall|i: int|
            0 <= i < self.chat_channels@.len() ==> (#[trigger] self.chat_channels@[i]).display@.len() > 0
    }

    /// The message of the first rule the configuration breaks, checked in
    /// the order `validate` checks them.
    pub open spec fn spec_validation_msg(self) -> Seq<char> {
        if self.chat_channels@.len() == 0 {
            "Result<(), String>"@
        } else if self.ui_scale == 0 {
            "UI scale must be greater than 0."@
        } else if self.ui_offset_top > 200 {
            "UI offset top must be between 0 and 200."@
        } else if self.ui_offset_left > 200 {
            "UI offset left must be between 0 and 200."@
        } else if self.model_path@.len() == 0 {
            "Model path cannot be empty."@
        } else if self.btn_id_offset > 230 {
            "Button ID offset must be between 0 and 230."@
        } else {
            "Chat channel display name cannot be empty."@
        }
    }

    /// Accepts the configuration exactly when every validation rule holds;
    /// otherwise reports the first broken rule as a `ValidationError`.
    pub fn validate(&self) -> (r: Result<(), ConfigError>)
        ensures
            match r {
                Ok(()) => self.spec_valid(),
                Err(e) => !self.spec_valid() && (e matches ConfigError::ValidationError(m)
                    && m@ == self.spec_validation_msg()),
            },
    {
        if self.chat_channels.is_empty() {
            return Err(ConfigError::ValidationError("Result<(), String>".to_owned()));
        }
        if self.ui_scale == 0 {
            return Err(ConfigError::ValidationError("UI scale must be greater than 0.".to_owned()));
        }
        if self.ui_offset_top > 200 {
            return Err(
                ConfigError::ValidationError("UI offset top must be between 0 and 200.".to_owned()),
            );
        }
        if self.ui_offset_left > 200 {
            return Err(
                ConfigError::ValidationError(
                    "UI offset left must be between 0 and 200.".to_owned(),
                ),
            );
        }
        if self.model_path.as_str().is_empty() {
            return Err(ConfigError::ValidationError("Model path cannot be empty.".to_owned()));
        }
        if self.btn_id_offset > 230 {
            return Err(
                ConfigError::ValidationError(
                    "Button ID offset must be between 0 and 230.".to_owned(),
                ),
            );
        }
        let mut i: usize = 0;
        while i < self.chat_channels.len()
            invariant
                0 <= i <= self.chat_channels@.len(),
                self.chat_channels@.len() > 0,
                self.ui_scale != 0,
                self.ui_offset_top <= 200,
                self.ui_offset_left <= 200,
                self.model_path@.len() > 0,
                self.btn_id_offset <= 230,
                forall|k: int|
                    0 <= k < i ==> (#[trigger] self.chat_channels@[k]).display@.len() > 0,
            decreases self.chat_channels@.len() - i,
        {
            if self.chat_channels[i].display.as_str().is_empty() {
                return Err(
                    ConfigError::ValidationError(
                        "Chat channel display name cannot be empty.".to_owned(),
                    ),
                );
            }
            i = i + 1;
        }
        Ok(())
    }
}

} // verus!
