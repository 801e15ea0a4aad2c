//! Transcript events.

use vstd::prelude::*;

verus! {

/// Which audio source produced a transcript segment.
#[derive(Debug, Clone, Copy, PartialEq, Eq, Structural)]
pub enum AudioSource {
    Mic,
    Sys,
}

/// A single transcript event emitted by the active backend.
///
/// For Deepgram, `is_final = false` means an interim result; `true` means
/// committed. For Whisper and Parakeet, all results are final.
#[derive(Debug)]
pub struct Transcript {
    pub source: AudioSource,
    pub text: String,
    pub is_final: bool,
}

impl Clone for Transcript {
    fn clone(&self) -> (copy: Self)
        ensures
            copy == *self,
    {
        Transcript { source: self.source, text: self.text.clone(), is_final: self.is_final }
    }
}

} // verus!
