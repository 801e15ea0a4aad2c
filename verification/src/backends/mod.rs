//! Transcription backends.

pub mod deepgram;
pub mod parakeet;
pub mod whisper;
