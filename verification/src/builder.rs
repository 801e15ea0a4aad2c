//! Builder for configuring and starting a splitstream session.

use crate::backends::deepgram::{endpoint, endpoint_url};
use crate::backends::whisper::{samples_in, window_samples};
use crate::engine::Routing;
use crate::error::{OpenError, SplitStreamError};
use crate::handle::{Controls, Panel, SplitStreamHandle};
use vstd::prelude::*;
use vstd::string::*;

verus! {

/// Configuration for the Deepgram streaming backend.
#[derive(Debug)]
pub struct DeepgramConfig {
    pub api_key: String,
    /// Deepgram model name (e.g. `"nova-3"`).
    pub model: String,
}

/// Configuration for the local Whisper backend.
#[derive(Debug)]
pub struct WhisperConfig {
    pub model_path: String,
    /// Inference window in seconds. Larger = more context, higher latency.
    pub window_seconds: u32,
}

/// Configuration for the local Parakeet EOU backend.
#[derive(Debug)]
pub struct ParakeetConfig {
    pub model_dir: String,
}

/// The backend that a session transcribes with.
#[derive(Debug)]
pub enum BackendSpec {
    Deepgram(DeepgramConfig),
    Whisper(WhisperConfig),
    Parakeet(ParakeetConfig),
}

/// Converts a `&str`, as the standard library documents for `String::from`: a
/// string with the same characters.
pub assume_specification<'a>[ <String as std::convert::From<&'a str>>::from ](s: &str) -> (text:
    String)
    ensures
        text@ == s@,
;

/// Converts a value to its own type, as the standard library documents for
/// `From::from`: the argument, unchanged.
pub assume_specification<A>[ <A as std::convert::From<A>>::from ](t: A) -> (same: A)
    ensures
        same == t,
;

/// Whether `text` is what `value` is converted to.
pub open spec fn converts_to<T: Into<String>>(value: T, text: String) -> bool {
    call_ensures(T::into, (value,), text)
}

/// What is needed to start a backend.
#[derive(Debug)]
pub enum BackendPlan {
    /// Connect to this URL with this key.
    Deepgram { api_key: String, ws_url: String },
    /// Load this model and run it on windows of so many samples.
    Whisper { model_path: String, window_samples: usize },
    /// Load the model in this directory.
    Parakeet { model_dir: String },
}

impl BackendSpec {
    /// How frames reach the backend.
    pub open spec fn route(self) -> Routing {
        match self {
            BackendSpec::Deepgram(_) => Routing::Deepgram,
            BackendSpec::Whisper(_) => Routing::Whisper,
            BackendSpec::Parakeet(_) => Routing::Parakeet,
        }
    }

    /// How frames reach the backend.
    pub fn routing(&self) -> (routing: Routing)
        ensures
            routing == self.route(),
    {
        match self {
            BackendSpec::Deepgram(_) => Routing::Deepgram,
            BackendSpec::Whisper(_) => Routing::Whisper,
            BackendSpec::Parakeet(_) => Routing::Parakeet,
        }
    }

    /// What is needed to start the backend.
    pub fn plan(&self) -> (plan: BackendPlan)
        requires
            self matches BackendSpec::Whisper(config) ==> samples_in(config.window_seconds)
                <= usize::MAX,
        ensures
            match self {
                BackendSpec::Deepgram(config) => plan matches BackendPlan::Deepgram {
                    api_key,
                    ws_url,
                } && api_key == config.api_key && ws_url@ == endpoint(config.model@),
                BackendSpec::Whisper(config) => plan matches BackendPlan::Whisper {
                    model_path,
                    window_samples,
                } && model_path == config.model_path && window_samples == samples_in(
                    config.window_seconds,
                ),
                BackendSpec::Parakeet(config) => plan == (BackendPlan::Parakeet {
                    model_dir: config.model_dir,
                }),
            },
    {
        match self {
            BackendSpec::Deepgram(config) => BackendPlan::Deepgram {
                api_key: config.api_key.clone(),
                ws_url: endpoint_url(config.model.as_str()),
            },
            BackendSpec::Whisper(config) => BackendPlan::Whisper {
                model_path: config.model_path.clone(),
                window_samples: window_samples(config.window_seconds),
            },
            BackendSpec::Parakeet(config) => BackendPlan::Parakeet {
                model_dir: config.model_dir.clone(),
            },
        }
    }
}

/// Builder for a splitstream session. Call [`start`](SplitStreamBuilder::start)
/// to obtain what the audio engine runs on.
#[derive(Debug)]
pub struct SplitStreamBuilder {
    backend: Option<BackendSpec>,
    mic_muted: bool,
    sys_muted: bool,
    echo_cancellation: bool,
}

impl SplitStreamBuilder {
    /// The backend chosen last, if any was chosen.
    pub closed spec fn chosen(self) -> Option<BackendSpec> {
        self.backend
    }

    /// The switches that the session starts with.
    pub closed spec fn controls(self) -> Controls {
        Controls {
            mic_muted: self.mic_muted,
            sys_muted: self.sys_muted,
            echo_cancellation: self.echo_cancellation,
        }
    }

    /// No backend, nothing muted, no echo cancellation.
    pub fn new() -> (builder: Self)
        ensures
            builder.chosen() is None,
            builder.controls() == (Controls {
                mic_muted: false,
                sys_muted: false,
                echo_cancellation: false,
            }),
    {
        Self { backend: None, mic_muted: false, sys_muted: false, echo_cancellation: false }
    }

    /// Use Deepgram cloud transcription with a Bearer API key and the `nova-3` model.
    pub fn with_deepgram<T: Into<String>>(self, api_key: T) -> (builder: Self)
        ensures
            builder.chosen() matches Some(BackendSpec::Deepgram(config)) && converts_to(
                api_key,
                config.api_key,
            ) && config.model@ == "nova-3"@,
            builder.controls() == self.controls(),
    {
        self.with_deepgram_config(
            DeepgramConfig { api_key: api_key.into(), model: String::from("nova-3") },
        )
    }

    /// Use Deepgram with full configuration control.
    pub fn with_deepgram_config(self, config: DeepgramConfig) -> (builder: Self)
        ensures
            builder.chosen() == Some(BackendSpec::Deepgram(config)),
            builder.controls() == self.controls(),
    {
        Self { backend: Some(BackendSpec::Deepgram(config)), ..self }
    }

    /// Use local Whisper transcription with a window of four seconds.
    pub fn with_whisper<T: Into<String>>(self, model_path: T) -> (builder: Self)
        ensures
            builder.chosen() matches Some(BackendSpec::Whisper(config)) && converts_to(
                model_path,
                config.model_path,
            ) && config.window_seconds == 4,
            builder.controls() == self.controls(),
    {
        self.with_whisper_config(
            WhisperConfig { model_path: model_path.into(), window_seconds: 4 },
        )
    }

    /// Use local Whisper with full configuration control.
    pub fn with_whisper_config(self, config: WhisperConfig) -> (builder: Self)
        ensures
            builder.chosen() == Some(BackendSpec::Whisper(config)),
            builder.controls() == self.controls(),
    {
        Self { backend: Some(BackendSpec::Whisper(config)), ..self }
    }

    /// Use local Parakeet EOU transcription.
    pub fn with_parakeet<T: Into<String>>(self, model_dir: T) -> (builder: Self)
        ensures
            builder.chosen() matches Some(BackendSpec::Parakeet(config)) && converts_to(
                model_dir,
                config.model_dir,
            ),
            builder.controls() == self.controls(),
    {
        self.with_parakeet_config(ParakeetConfig { model_dir: model_dir.into() })
    }

    /// Use local Parakeet with full configuration control.
    pub fn with_parakeet_config(self, config: ParakeetConfig) -> (builder: Self)
        ensures
            builder.chosen() == Some(BackendSpec::Parakeet(config)),
            builder.controls() == self.controls(),
    {
        Self { backend: Some(BackendSpec::Parakeet(config)), ..self }
    }

    /// Start with the microphone muted. Can be toggled via
    /// [`SplitStreamHandle::set_mic_muted`].
    pub fn mic_muted(self, muted: bool) -> (builder: Self)
        ensures
            builder.chosen() == self.chosen(),
            builder.controls() == (Controls { mic_muted: muted, ..self.controls() }),
    {
        Self { mic_muted: muted, ..self }
    }

    /// Start with system audio muted (compliance mode). Can be toggled via
    /// [`SplitStreamHandle::set_sys_muted`].
    pub fn sys_muted(self, muted: bool) -> (builder: Self)
        ensures
            builder.chosen() == self.chosen(),
            builder.controls() == (Controls { sys_muted: muted, ..self.controls() }),
    {
        Self { sys_muted: muted, ..self }
    }

    /// Enable acoustic echo cancellation. Can be toggled via
    /// [`SplitStreamHandle::set_echo_cancellation`].
    pub fn echo_cancellation(self, enabled: bool) -> (builder: Self)
        ensures
            builder.chosen() == self.chosen(),
            builder.controls() == (Controls { echo_cancellation: enabled, ..self.controls() }),
    {
        Self { echo_cancellation: enabled, ..self }
    }

    /// The backend chosen last, if any was chosen.
    pub fn backend(&self) -> (backend: Option<&BackendSpec>)
        ensures
            match self.chosen() {
                Some(spec) => backend matches Some(found) && *found == spec,
                None => backend is None,
            },
    {
        match &self.backend {
            Some(spec) => Some(spec),
            None => None,
        }
    }

    /// Starts a session, given what came of opening the microphone, the system
    /// audio tap and the chosen backend. Returns the handle of the session and the
    /// backend that it runs with.
    ///
    /// Fails with [`SplitStreamError::NoBackend`] if no backend was chosen, and
    /// otherwise with the error that opening met.
    pub fn start(self, opened: Result<(), OpenError>) -> (session: Result<
        (SplitStreamHandle, BackendSpec),
        SplitStreamError,
    >)
        ensures
            match self.chosen() {
                None => session == Err::<(SplitStreamHandle, BackendSpec), _>(
                    SplitStreamError::NoBackend,
                ),
                Some(spec) => match opened {
                    Err(error) => session == Err::<(SplitStreamHandle, BackendSpec), _>(
                        error.reported(),
                    ),
                    Ok(_) => session matches Ok((handle, backend)) && backend == spec
                        && handle.panel == (Panel {
                        controls: self.controls(),
                        shutdown_requested: false,
                    }),
                },
            },
    {
        match (self.backend, opened) {
            (None, _) => Err(SplitStreamError::NoBackend),
            (Some(_), Err(error)) => Err(error.report()),
            (Some(spec), Ok(_)) => {
                let controls = Controls::new(
                    self.mic_muted,
                    self.sys_muted,
                    self.echo_cancellation,
                );
                Ok((SplitStreamHandle::new(controls), spec))
            },
        }
    }
}

impl Default for SplitStreamBuilder {
    fn default() -> (builder: Self)
        ensures
            builder.chosen() is None,
            builder.controls() == (Controls {
                mic_muted: false,
                sys_muted: false,
                echo_cancellation: false,
            }),
    {
        Self::new()
    }
}

} // verus!
