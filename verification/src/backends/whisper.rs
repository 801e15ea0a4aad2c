//! Local Whisper transcription.
//!
//! Each source has its own inference thread, which collects audio until its
//! window is full, runs the model on all of it, and emits the segments that are
//! speech.

use crate::audio::resampler::OUT_SAMPLE_RATE;
use crate::sample::joined;
use crate::text::{chars_of, same_text, string_of, trim, trimmed};
use crate::transcript::{AudioSource, Transcript};
use vstd::prelude::*;

verus! {

/// The samples in a window of so many seconds.
pub open spec fn samples_in(seconds: u32) -> int {
    seconds * OUT_SAMPLE_RATE
}

/// Text that the model makes up for noise: anything in square brackets, and a
/// few stock phrases.
pub open spec fn artifact(text: Seq<char>) -> bool {
    ||| text.len() > 0 && text.first() == '[' && text.last() == ']'
    ||| text == "you"@
    ||| text == "You"@
    ||| text == "Thank you."@
    ||| text == "Thanks."@
    ||| text == "Thanks for watching."@
    ||| text == "Thank you for watching."@
}

/// Whether a segment is emitted.
pub open spec fn is_speech(segment: Seq<char>) -> bool {
    trim(segment).len() > 0 && !artifact(trim(segment))
}

/// The text of a segment; `None` if the model has none for it.
pub open spec fn segment_text(segment: Option<String>) -> Option<Seq<char>> {
    match segment {
        Some(text) => Some(text@),
        None => None,
    }
}

/// The texts emitted for a list of segments, in order.
pub open spec fn spoken(segments: Seq<Option<String>>) -> Seq<Seq<char>>
    decreases segments.len(),
{
    if segments.len() == 0 {
        Seq::empty()
    } else {
        let before = spoken(segments.drop_last());
        match segment_text(segments.last()) {
            Some(text) => if is_speech(text) {
                before.push(trim(text))
            } else {
                before
            },
            None => before,
        }
    }
}

/// Whether `list` is the final transcripts of a source with the given texts.
pub open spec fn are_transcripts(
    list: Seq<Transcript>,
    source: AudioSource,
    texts: Seq<Seq<char>>,
) -> bool {
    &&& list.len() == texts.len()
    &&& forall|i: int|
        0 <= i < list.len() ==> {
            &&& (#[trigger] list[i]).source == source
            &&& list[i].text@ == texts[i]
            &&& list[i].is_final
        }
}

/// The contents of a list of sample vectors.
pub open spec fn runs(list: Seq<Vec<u32>>) -> Seq<Seq<u32>> {
    list.map_values(|v: Vec<u32>| v@)
}

/// The inference window in samples.
pub fn window_samples(window_seconds: u32) -> (samples: usize)
    requires
        samples_in(window_seconds) <= usize::MAX,
    ensures
        samples == samples_in(window_seconds),
{
    let samples: u64 = window_seconds as u64 * OUT_SAMPLE_RATE as u64;
    samples as usize
}

/// Returns true for Whisper's standard non-speech hallucinations.
pub fn is_artifact(text: &str) -> (yes: bool)
    ensures
        yes == artifact(text@),
{
    let list = chars_of(text);
    if list.len() > 0 && list[0] == '[' && list[list.len() - 1] == ']' {
        return true;
    }
    same_text(text, "you") || same_text(text, "You") || same_text(text, "Thank you.") || same_text(
        text,
        "Thanks.",
    ) || same_text(text, "Thanks for watching.") || same_text(text, "Thank you for watching.")
}

/// The transcript of one segment, if it is speech.
pub fn segment_transcript(source: AudioSource, segment: &str) -> (transcript: Option<Transcript>)
    ensures
        is_speech(segment@) <==> transcript is Some,
        transcript matches Some(t) ==> t.source == source && t.text@ == trim(segment@)
            && t.is_final,
{
    let text = string_of(&trimmed(&chars_of(segment)));
    if text.as_str().is_empty() || is_artifact(text.as_str()) {
        return None;
    }
    Some(Transcript { source, text, is_final: true })
}

/// The transcripts of the segments that one inference produced.
pub fn segment_transcripts(source: AudioSource, segments: &Vec<Option<String>>) -> (list: Vec<
    Transcript,
>)
    ensures
        are_transcripts(list@, source, spoken(segments@)),
{
    let mut list: Vec<Transcript> = Vec::new();
    let mut i: usize = 0;
    assert(segments@.take(0) =~= Seq::empty());
    while i < segments.len()
        invariant
            i <= segments.len(),
            are_transcripts(list@, source, spoken(segments@.take(i as int))),
        decreases segments.len() - i,
    {
        assert(segments@.take(i + 1).drop_last() =~= segments@.take(i as int));
        if let Some(text) = &segments[i] {
            if let Some(transcript) = segment_transcript(source, text.as_str()) {
                list.push(transcript);
            }
        }
        i += 1;
    }
    assert(segments@.take(segments@.len() as int) =~= segments@);
    list
}

/// The audio that one inference thread has collected.
#[derive(Debug)]
pub struct WhisperChannel {
    window_samples: usize,
    buffer: Vec<u32>,
}

impl WhisperChannel {
    /// The number of samples that inference waits for.
    pub closed spec fn window(self) -> nat {
        self.window_samples as nat
    }

    /// The samples collected since the last inference.
    pub closed spec fn collected(self) -> Seq<u32> {
        self.buffer@
    }

    /// A channel that has collected nothing.
    pub fn new(window_samples: usize) -> (channel: Self)
        ensures
            channel.window() == window_samples,
            channel.collected() == Seq::<u32>::empty(),
    {
        WhisperChannel { window_samples, buffer: Vec::new() }
    }

    /// Adds all batches that have arrived. Once the window is full, returns
    /// everything collected, to be transcribed, and starts over.
    pub fn on_batches(&mut self, batches: &Vec<Vec<u32>>) -> (chunk: Option<Vec<u32>>)
        ensures
            final(self).window() == old(self).window(),
            ({
                let all = old(self).collected() + joined(runs(batches@));
                if all.len() < old(self).window() {
                    chunk is None && final(self).collected() == all
                } else {
                    chunk matches Some(samples) && samples@ == all && final(self).collected()
                        == Seq::<u32>::empty()
                }
            }),
    {
        let mut i: usize = 0;
        assert(old(self).collected() + joined(runs(batches@.take(0))) =~= self.buffer@);
        while i < batches.len()
            invariant
                i <= batches.len(),
                self.window() == old(self).window(),
                self.buffer@ == old(self).collected() + joined(runs(batches@.take(i as int))),
            decreases batches.len() - i,
        {
            let ghost before = self.buffer@;
            self.buffer.extend_from_slice(batches[i].as_slice());
            assert(self.buffer@ =~= before + batches@[i as int]@);
            assert(runs(batches@.take(i + 1)).drop_last() =~= runs(batches@.take(i as int)));
            assert(self.buffer@ =~= old(self).collected() + joined(runs(batches@.take(i + 1))));
            i += 1;
        }
        assert(batches@.take(batches@.len() as int) =~= batches@);
        if self.buffer.len() < self.window_samples {
            return None;
        }
        let mut chunk: Vec<u32> = Vec::new();
        std::mem::swap(&mut chunk, &mut self.buffer);
        Some(chunk)
    }
}

/// Emitted segments are not empty and not artifacts.
pub proof fn law_emitted_segments_are_speech(segments: Seq<Option<String>>)
    ensures
        forall|i: int|
            0 <= i < spoken(segments).len() ==> (#[trigger] spoken(segments)[i]).len() > 0
                && !artifact(spoken(segments)[i]),
    decreases segments.len(),
{
    if segments.len() > 0 {
        let before = spoken(segments.drop_last());
        law_emitted_segments_are_speech(segments.drop_last());
        assert forall|i: int| 0 <= i < spoken(segments).len() implies (#[trigger] spoken(
            segments,
        )[i]).len() > 0 && !artifact(spoken(segments)[i]) by {
            if i < before.len() {
                assert(spoken(segments)[i] == before[i]);
            }
        }
    }
}

} // verus!
