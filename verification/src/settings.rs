//! Settings and the choice of a backend.

use crate::builder::{BackendSpec, SplitStreamBuilder, WhisperConfig};
use crate::engine::Routing;
use crate::handle::Controls;
use crate::text::same_text;
use vstd::prelude::*;
use vstd::string::*;

verus! {

/// The backend used when the settings name none.
pub fn default_transcription_backend() -> (name: String)
    ensures
        name@ == "deepgram"@,
{
    String::from_str("deepgram")
}

/// The Whisper window used when the settings give none.
pub fn default_whisper_window_seconds() -> (seconds: u32)
    ensures
        seconds == 4,
{
    4
}

/// The settings of the demo, as loaded from `settings.toml`.
#[derive(Debug)]
pub struct Settings {
    pub compliance_mode_on_start: bool,
    pub echo_cancellation: bool,
    /// "deepgram" or "whisper"
    pub transcription_backend: String,
    pub whisper_model_path: String,
    pub whisper_vad_model_path: String,
    pub whisper_window_seconds: u32,
}

/// The entries of the demo's settings file; some may be left out.
#[derive(Debug)]
pub struct SettingsFile {
    pub compliance_mode_on_start: bool,
    pub echo_cancellation: bool,
    pub transcription_backend: Option<String>,
    pub whisper_model_path: Option<String>,
    pub whisper_vad_model_path: Option<String>,
    pub whisper_window_seconds: Option<u32>,
}

/// The settings of the splitstream program, all of them mandatory.
#[derive(Debug)]
pub struct SessionSettings {
    /// Whether system audio is muted at first.
    pub compliance_mode_on_start: bool,
    pub echo_cancellation: bool,
    /// `"parakeet"`, `"whisper"` or `"deepgram"`
    pub transcription_backend: String,
    pub whisper_model_path: String,
    pub whisper_window_seconds: u32,
    pub parakeet_model_dir: String,
}

/// The text of an optional entry.
pub open spec fn entry_or(entry: Option<String>, default: Seq<char>) -> Seq<char> {
    match entry {
        Some(text) => text@,
        None => default,
    }
}

/// The Deepgram key is needed but was not given.
#[derive(Debug, Clone, Copy, PartialEq, Eq, Structural)]
pub struct MissingApiKey;

impl Settings {
    /// Fills in the defaults for entries that were left out.
    pub fn new(file: SettingsFile) -> (settings: Self)
        ensures
            settings.compliance_mode_on_start == file.compliance_mode_on_start,
            settings.echo_cancellation == file.echo_cancellation,
            settings.transcription_backend@ == entry_or(file.transcription_backend, "deepgram"@),
            settings.whisper_model_path@ == entry_or(file.whisper_model_path, Seq::empty()),
            settings.whisper_vad_model_path@ == entry_or(file.whisper_vad_model_path, Seq::empty()),
            settings.whisper_window_seconds == match file.whisper_window_seconds {
                Some(seconds) => seconds,
                None => 4u32,
            },
    {
        Settings {
            compliance_mode_on_start: file.compliance_mode_on_start,
            echo_cancellation: file.echo_cancellation,
            transcription_backend: match file.transcription_backend {
                Some(name) => name,
                None => default_transcription_backend(),
            },
            whisper_model_path: text_or_empty(file.whisper_model_path),
            whisper_vad_model_path: text_or_empty(file.whisper_vad_model_path),
            whisper_window_seconds: match file.whisper_window_seconds {
                Some(seconds) => seconds,
                None => default_whisper_window_seconds(),
            },
        }
    }

    /// The backend of the demo: Whisper if the settings say so, otherwise
    /// Deepgram.
    pub fn routing(&self) -> (routing: Routing)
        ensures
            routing == if self.transcription_backend@ == "whisper"@ {
                Routing::Whisper
            } else {
                Routing::Deepgram
            },
    {
        if same_text(self.transcription_backend.as_str(), "whisper") {
            Routing::Whisper
        } else {
            Routing::Deepgram
        }
    }
}

impl SessionSettings {
    /// The switches that the session starts with.
    pub open spec fn controls(self) -> Controls {
        Controls {
            mic_muted: false,
            sys_muted: self.compliance_mode_on_start,
            echo_cancellation: self.echo_cancellation,
        }
    }

    /// Sets up a session. Any backend name but `parakeet` and `whisper` stands for
    /// Deepgram, which needs an API key.
    pub fn configure(self, api_key: Option<String>) -> (builder: Result<
        SplitStreamBuilder,
        MissingApiKey,
    >)
        ensures
            if self.transcription_backend@ == "parakeet"@ {
                &&& builder matches Ok(b)
                &&& b.controls() == self.controls()
                &&& b.chosen() matches Some(BackendSpec::Parakeet(config))
                &&& config.model_dir == self.parakeet_model_dir
            } else if self.transcription_backend@ == "whisper"@ {
                &&& builder matches Ok(b)
                &&& b.controls() == self.controls()
                &&& b.chosen() == Some(
                    BackendSpec::Whisper(
                        WhisperConfig {
                            model_path: self.whisper_model_path,
                            window_seconds: self.whisper_window_seconds,
                        },
                    ),
                )
            } else {
                match api_key {
                    Some(key) => {
                        &&& builder matches Ok(b)
                        &&& b.controls() == self.controls()
                        &&& b.chosen() matches Some(BackendSpec::Deepgram(config))
                        &&& config.api_key == key
                        &&& config.model@ == "nova-3"@
                    },
                    None => builder == Err::<SplitStreamBuilder, _>(MissingApiKey),
                }
            },
    {
        let builder = SplitStreamBuilder::new().sys_muted(
            self.compliance_mode_on_start,
        ).echo_cancellation(self.echo_cancellation);
        if same_text(self.transcription_backend.as_str(), "parakeet") {
            return Ok(builder.with_parakeet(self.parakeet_model_dir));
        }
        if same_text(self.transcription_backend.as_str(), "whisper") {
            return Ok(
                builder.with_whisper_config(
                    WhisperConfig {
                        model_path: self.whisper_model_path,
                        window_seconds: self.whisper_window_seconds,
                    },
                ),
            );
        }
        match api_key {
            Some(key) => Ok(builder.with_deepgram(key)),
            None => Err(MissingApiKey),
        }
    }
}

fn text_or_empty(entry: Option<String>) -> (text: String)
    ensures
        text@ == entry_or(entry, Seq::empty()),
{
    match entry {
        Some(text) => text,
        None => String::new(),
    }
}

} // verus!
