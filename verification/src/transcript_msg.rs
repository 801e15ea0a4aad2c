//! Deepgram streaming transcription response types.

use crate::text::same_text;
use crate::transcript::{AudioSource, Transcript};
use vstd::prelude::*;
use vstd::string::*;

verus! {

/// One reading of a stretch of speech.
#[derive(Debug)]
pub struct Alternative {
    pub transcript: String,
    /// The bit pattern of the double-precision confidence.
    pub confidence: u64,
}

/// Deepgram channel object — contains one or more transcript alternatives.
#[derive(Debug)]
pub struct Channel {
    pub alternatives: Vec<Alternative>,
}

/// Top-level Deepgram streaming message.
/// Only "Results" messages carry transcripts; others (Metadata, SpeechStarted,
/// UtteranceEnd) are silently ignored.
#[derive(Debug)]
pub struct TranscriptMessage {
    pub msg_type: String,
    /// [channel_number, total_channels] — channel 0 = mic, channel 1 = sys
    pub channel_index: Option<Vec<u32>>,
    pub is_final: bool,
    pub channel: Option<Channel>,
}

impl TranscriptMessage {
    /// The text of the first alternative.
    pub open spec fn top_text(self) -> Option<Seq<char>> {
        match self.channel {
            Some(channel) => if channel.alternatives@.len() > 0 {
                Some(channel.alternatives@[0].transcript@)
            } else {
                None
            },
            None => None,
        }
    }

    /// The first entry of the channel index.
    pub open spec fn channel_number(self) -> Option<u32> {
        match self.channel_index {
            Some(index) => if index@.len() > 0 {
                Some(index@[0])
            } else {
                None
            },
            None => None,
        }
    }

    /// The source that the message is about.
    pub open spec fn source(self) -> Option<AudioSource> {
        match self.channel_number() {
            Some(n) => if n == 0 {
                Some(AudioSource::Mic)
            } else if n == 1 {
                Some(AudioSource::Sys)
            } else {
                None
            },
            None => None,
        }
    }

    /// Whether the message leads to a transcript: it is a result, it has text, and
    /// it is about a known source.
    pub open spec fn is_transcript(self) -> bool {
        &&& self.msg_type@ == "Results"@
        &&& self.top_text() matches Some(text) && text.len() > 0
        &&& self.source() is Some
    }

    /// Returns the top alternative transcript text, if present.
    pub fn transcript(&self) -> (text: Option<&str>)
        ensures
            match self.top_text() {
                Some(expected) => text matches Some(found) && found@ == expected,
                None => text is None,
            },
    {
        match &self.channel {
            Some(channel) => {
                if channel.alternatives.len() > 0 {
                    Some(channel.alternatives[0].transcript.as_str())
                } else {
                    None
                }
            },
            None => None,
        }
    }

    /// Returns the 0-based channel number (0 = mic, 1 = sys).
    pub fn channel_num(&self) -> (number: Option<u32>)
        ensures
            number == self.channel_number(),
    {
        match &self.channel_index {
            Some(index) => {
                if index.len() > 0 {
                    Some(index[0])
                } else {
                    None
                }
            },
            None => None,
        }
    }

    /// The transcript that the message leads to, if any.
    pub fn event(&self) -> (event: Option<Transcript>)
        ensures
            self.is_transcript() <==> event is Some,
            event matches Some(t) ==> Some(t.source) == self.source() && Some(t.text@)
                == self.top_text() && t.is_final == self.is_final,
    {
        if !same_text(self.msg_type.as_str(), "Results") {
            return None;
        }
        let text = match self.transcript() {
            Some(text) => text,
            None => {
                return None;
            },
        };
        if text.is_empty() {
            return None;
        }
        let source = match self.channel_num() {
            Some(0) => AudioSource::Mic,
            Some(1) => AudioSource::Sys,
            _ => {
                return None;
            },
        };
        Some(Transcript { source, text: String::from_str(text), is_final: self.is_final })
    }
}

} // verus!
