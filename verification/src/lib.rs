//! Capture of microphone and system audio, and routing of both sides of a
//! conversation to a transcription backend.
//!
//! The library decides; devices, models and connections are driven by the program
//! around it, which performs what the library asks for and reports what came of it.
//! A session is set up with [`SplitStreamBuilder`], runs on an
//! [`engine::Engine`], and ends up with [`Transcript`]s from one of the
//! [`backends`].

pub mod audio;
pub mod audio_input_buffers;
pub mod backends;
pub mod builder;
pub mod coreaudio_listener;
pub mod demo;
pub mod download_parakeet;
pub mod echo_cancellation;
pub mod engine;
pub mod error;
pub mod handle;
pub mod laws;
pub mod macos_device;
pub mod ring;
pub mod sample;
pub mod settings;
pub mod sys_audio_tap;
pub mod text;
pub mod transcript;
pub mod transcript_msg;
pub mod websocket_client;

pub use builder::{BackendSpec, DeepgramConfig, ParakeetConfig, SplitStreamBuilder, WhisperConfig};
pub use error::{OpenError, SplitStreamError};
pub use handle::{Controls, Panel, SplitStreamHandle};
pub use transcript::{AudioSource, Transcript};
