//! ParakeetEOU streaming transcription.
//!
//! The model takes 160 ms chunks and answers each with the text it recognised, if
//! any. It keeps four seconds of audio and needs about one second of warm-up
//! before it produces output. [`ParakeetChannel`] decides, from the answers alone,
//! when buffered text is emitted and when the model has to be reset.

use crate::text::{
    chars_of, is_blank, is_white_space, lemma_trim_ends, remove_all, replace_char, split_words,
    string_of, trim, trim_end, trimmed, white_space, with_char_replaced, without, words,
};
use crate::transcript::{AudioSource, Transcript};
use vstd::prelude::*;
use vstd::string::*;

verus! {

/// Buffered text is emitted after this many consecutive empty iterations.
pub const FLUSH_SILENCE_CHUNKS: usize = 3;

/// Buffered text is emitted once it has this many words.
pub const MAX_WORDS_BEFORE_FLUSH: usize = 8;

/// The model is reset after this many consecutive empty iterations. More than the
/// warm-up takes.
pub const RESET_SILENCE_CHUNKS: usize = 12;

/// Samples of silence per chunk fed to the model before a reset.
pub const SILENCE_CHUNK_SAMPLES: usize = 2560;

/// Chunks of silence fed to the model before a reset.
pub const SILENCE_CHUNKS: usize = 3;

/// The text of one model answer; `None` if the model failed.
pub open spec fn answer(text: Option<String>) -> Seq<char> {
    match text {
        Some(t) => t@,
        None => Seq::empty(),
    }
}

/// Whether an answer holds anything but white space.
pub open spec fn has_text(text: Option<String>) -> bool {
    trim(answer(text)).len() > 0
}

/// Whether any of the answers holds text.
pub open spec fn any_text(texts: Seq<Option<String>>) -> bool {
    exists|i: int| 0 <= i < texts.len() && has_text(#[trigger] texts[i])
}

/// The buffer after the answers that hold text were appended, in order.
pub open spec fn appended(buffer: Seq<char>, texts: Seq<Option<String>>) -> Seq<char>
    decreases texts.len(),
{
    if texts.len() == 0 {
        buffer
    } else {
        let before = appended(buffer, texts.drop_last());
        if has_text(texts.last()) {
            before + answer(texts.last())
        } else {
            before
        }
    }
}

/// Text with word-boundary markers as spaces.
pub open spec fn with_spaces(text: Seq<char>) -> Seq<char> {
    replace_char(text, '\u{2581}', ' ')
}

/// Readable text: word-boundary markers as spaces, end-of-utterance marks removed.
pub open spec fn decoded(text: Seq<char>) -> Seq<char> {
    remove_all(with_spaces(text), "[EOU]"@)
}

/// What is emitted for a buffer; nothing if this is empty.
pub open spec fn emitted_text(buffer: Seq<char>) -> Seq<char> {
    trim(decoded(buffer))
}

/// Whether the last character that is not white space ends a sentence.
pub open spec fn sentence_ended(text: Seq<char>) -> bool {
    let t = trim_end(text);
    t.len() > 0 && (t.last() == '.' || t.last() == '?' || t.last() == '!')
}

/// Whether a transcript is what a flush of `buffer` emits.
pub open spec fn is_flush(transcript: Option<Transcript>, source: AudioSource, buffer: Seq<char>) -> bool {
    if emitted_text(buffer).len() == 0 {
        transcript is None
    } else {
        transcript matches Some(t) && t.source == source && t.text@ == emitted_text(buffer)
            && t.is_final
    }
}

/// The state of one channel.
pub struct ChannelState {
    pub buffer: Seq<char>,
    pub streak: nat,
    pub warmed_up: bool,
}

impl ChannelState {
    /// Whether the model has to be reset before anything else happens.
    pub open spec fn reset_pending(self) -> bool {
        self.warmed_up && self.streak == RESET_SILENCE_CHUNKS
    }

    /// A model that has produced output is reset before the silence gets longer
    /// than the threshold, and by then nothing is buffered.
    pub open spec fn valid(self) -> bool {
        &&& self.warmed_up ==> self.streak <= RESET_SILENCE_CHUNKS
        &&& self.buffer.len() > 0 ==> self.streak < FLUSH_SILENCE_CHUNKS
    }

    /// The state once the answers to one iteration are appended and counted.
    pub open spec fn heard(self, texts: Seq<Option<String>>) -> ChannelState {
        ChannelState {
            buffer: appended(self.buffer, texts),
            streak: if any_text(texts) {
                0
            } else {
                self.streak + 1
            },
            warmed_up: self.warmed_up || any_text(texts),
        }
    }

    /// Whether the buffered text is due to be emitted.
    pub open spec fn flush_due(self) -> bool {
        &&& self.buffer.len() > 0
        &&& {
            ||| sentence_ended(decoded(self.buffer))
            ||| words(decoded(self.buffer)).len() >= MAX_WORDS_BEFORE_FLUSH
            ||| self.streak >= FLUSH_SILENCE_CHUNKS
        }
    }

    /// The state after one iteration.
    pub open spec fn stepped(self, texts: Seq<Option<String>>) -> ChannelState {
        let heard = self.heard(texts);
        if heard.flush_due() {
            ChannelState { buffer: Seq::empty(), streak: 0, warmed_up: heard.warmed_up }
        } else {
            heard
        }
    }

    /// The state after a silence-triggered reset. The streak stays at the
    /// threshold, so that the same silence causes no second reset.
    pub open spec fn reset(self) -> ChannelState {
        ChannelState { buffer: Seq::empty(), streak: self.streak, warmed_up: false }
    }
}

/// What an iteration leads to.
#[derive(Debug)]
pub struct ChannelStep {
    /// The transcript to emit.
    pub transcript: Option<Transcript>,
    /// Whether the model has to be fed silence and reset.
    pub reset: bool,
}

/// Whether text ends with a full stop, a question mark or an exclamation mark.
pub fn ends_sentence(text: &str) -> (ends: bool)
    ensures
        ends == sentence_ended(text@),
{
    chars_end_sentence(&chars_of(text))
}

fn chars_end_sentence(text: &Vec<char>) -> (ends: bool)
    ensures
        ends == sentence_ended(text@),
{
    let mut hi: usize = text.len();
    assert(text@.take(hi as int) =~= text@);
    while hi > 0 && is_white_space(text[hi - 1])
        invariant
            hi <= text.len(),
            trim_end(text@) == trim_end(text@.take(hi as int)),
        decreases hi,
    {
        assert(text@.take(hi as int).drop_last() =~= text@.take(hi - 1));
        hi -= 1;
    }
    assert(trim_end(text@) == text@.take(hi as int));
    if hi == 0 {
        return false;
    }
    let c = text[hi - 1];
    c == '.' || c == '?' || c == '!'
}

/// Replace SentencePiece word-boundary markers with spaces.
pub fn fix_sentencepiece(text: &str) -> (fixed: String)
    ensures
        fixed@ == with_spaces(text@),
{
    string_of(&with_char_replaced(&chars_of(text), '\u{2581}', ' '))
}

/// Readable text of a buffer.
fn decode(text: &str) -> (readable: Vec<char>)
    ensures
        readable@ == decoded(text@),
{
    let marker = chars_of("[EOU]");
    proof {
        reveal_strlit("[EOU]");
    }
    without(&with_char_replaced(&chars_of(text), '\u{2581}', ' '), &marker)
}

/// Empties a buffer and returns the transcript for what it held.
pub fn flush(buffer: &mut String, source: AudioSource) -> (transcript: Option<Transcript>)
    ensures
        is_flush(transcript, source, old(buffer)@),
        final(buffer)@ == Seq::<char>::empty(),
{
    let text = trimmed(&decode(buffer.as_str()));
    *buffer = String::new();
    if text.len() == 0 {
        return None;
    }
    Some(Transcript { source, text: string_of(&text), is_final: true })
}

/// Appends the answers that hold text. Returns whether any did.
fn append_texts(buffer: &mut String, texts: &Vec<Option<String>>) -> (got_text: bool)
    ensures
        final(buffer)@ == appended(old(buffer)@, texts@),
        got_text == any_text(texts@),
{
    let mut got_text = false;
    let mut i: usize = 0;
    assert(texts@.take(0) =~= Seq::empty());
    while i < texts.len()
        invariant
            i <= texts.len(),
            buffer@ == appended(old(buffer)@, texts@.take(i as int)),
            got_text == exists|j: int| 0 <= j < i && has_text(#[trigger] texts@[j]),
        decreases texts.len() - i,
    {
        assert(texts@.take(i + 1).drop_last() =~= texts@.take(i as int));
        match &texts[i] {
            Some(text) => {
                if !is_blank(&chars_of(text.as_str())) {
                    assert(has_text(texts@[i as int]));
                    buffer.append(text.as_str());
                    got_text = true;
                }
            },
            None => {
                assert(trim(answer(texts@[i as int])) =~= Seq::empty());
            },
        }
        i += 1;
    }
    assert(texts@.take(texts@.len() as int) =~= texts@);
    got_text
}

/// One inference thread: its buffered text and what it knows of the model.
#[derive(Debug)]
pub struct ParakeetChannel {
    source: AudioSource,
    text_buf: String,
    empty_streak: usize,
    warmed_up: bool,
}

impl View for ParakeetChannel {
    type V = ChannelState;

    closed spec fn view(&self) -> ChannelState {
        ChannelState {
            buffer: self.text_buf@,
            streak: self.empty_streak as nat,
            warmed_up: self.warmed_up,
        }
    }
}

impl ParakeetChannel {
    /// The source whose audio is transcribed.
    pub closed spec fn owner(self) -> AudioSource {
        self.source
    }

    /// A channel with a fresh model.
    pub fn new(source: AudioSource) -> (channel: Self)
        ensures
            channel@ == (ChannelState { buffer: Seq::empty(), streak: 0, warmed_up: false }),
            channel@.valid(),
            channel.owner() == source,
    {
        ParakeetChannel { source, text_buf: String::new(), empty_streak: 0, warmed_up: false }
    }

    /// How many iterations in a row brought no text.
    pub fn empty_streak(&self) -> (streak: usize)
        ensures
            streak == self@.streak,
    {
        self.empty_streak
    }

    /// Handles the answers to all chunks of one iteration.
    pub fn on_texts(&mut self, texts: &Vec<Option<String>>) -> (step: ChannelStep)
        requires
            old(self)@.valid(),
            !old(self)@.reset_pending(),
            old(self)@.streak < usize::MAX,
        ensures
            final(self)@ == old(self)@.stepped(texts@),
            final(self)@.valid(),
            final(self).owner() == old(self).owner(),
            old(self)@.heard(texts@).flush_due() ==> is_flush(
                step.transcript,
                old(self).owner(),
                old(self)@.heard(texts@).buffer,
            ),
            !old(self)@.heard(texts@).flush_due() ==> step.transcript is None,
            step.reset == final(self)@.reset_pending(),
    {
        let got_text = append_texts(&mut self.text_buf, texts);
        if got_text {
            self.warmed_up = true;
            self.empty_streak = 0;
        } else {
            self.empty_streak = self.empty_streak + 1;
            proof {
                lemma_nothing_appended(old(self)@.buffer, texts@);
            }
        }
        let mut transcript: Option<Transcript> = None;
        if !self.text_buf.as_str().is_empty() {
            let readable = decode(self.text_buf.as_str());
            let list = split_words(&readable);
            assert(crate::text::contents(list@).len() == list@.len());
            if chars_end_sentence(&readable) || list.len() >= MAX_WORDS_BEFORE_FLUSH
                || self.empty_streak >= FLUSH_SILENCE_CHUNKS {
                transcript = flush(&mut self.text_buf, self.source);
                self.empty_streak = 0;
            }
        }
        let reset = self.empty_streak == RESET_SILENCE_CHUNKS && self.warmed_up;
        ChannelStep { transcript, reset }
    }

    /// Ends a silence-triggered reset. `texts` are the model's answers to the
    /// chunks of silence it was fed before it was replaced.
    pub fn finish_reset(&mut self, texts: &Vec<Option<String>>) -> (transcript: Option<Transcript>)
        requires
            old(self)@.valid(),
            old(self)@.reset_pending(),
        ensures
            is_flush(transcript, old(self).owner(), appended(old(self)@.buffer, texts@)),
            final(self)@ == old(self)@.reset(),
            final(self)@.valid(),
            final(self).owner() == old(self).owner(),
    {
        append_texts(&mut self.text_buf, texts);
        let transcript = flush(&mut self.text_buf, self.source);
        self.warmed_up = false;
        transcript
    }

    /// Handles two seconds without audio: the buffered text and the answers to
    /// chunks of silence are emitted, and the channel starts over with a fresh
    /// model.
    pub fn on_timeout(&mut self, texts: &Vec<Option<String>>) -> (transcript: Option<Transcript>)
        ensures
            is_flush(transcript, old(self).owner(), appended(old(self)@.buffer, texts@)),
            final(self)@ == (ChannelState { buffer: Seq::empty(), streak: 0, warmed_up: false }),
            final(self)@.valid(),
            final(self).owner() == old(self).owner(),
    {
        append_texts(&mut self.text_buf, texts);
        let transcript = flush(&mut self.text_buf, self.source);
        self.warmed_up = false;
        self.empty_streak = 0;
        transcript
    }

    /// Handles the end of the audio: the buffered text is emitted.
    pub fn on_disconnect(&mut self) -> (transcript: Option<Transcript>)
        ensures
            is_flush(transcript, old(self).owner(), old(self)@.buffer),
            final(self)@ == (ChannelState { buffer: Seq::empty(), ..old(self)@ }),
            final(self).owner() == old(self).owner(),
    {
        flush(&mut self.text_buf, self.source)
    }
}

/// Answers without text leave the buffer as it is.
pub proof fn lemma_nothing_appended(buffer: Seq<char>, texts: Seq<Option<String>>)
    requires
        !any_text(texts),
    ensures
        appended(buffer, texts) == buffer,
    decreases texts.len(),
{
    if texts.len() > 0 {
        let earlier = texts.drop_last();
        assert forall|i: int| 0 <= i < earlier.len() implies !has_text(#[trigger] earlier[i]) by {
            assert(has_text(texts[i]) == has_text(earlier[i]));
        }
        assert(!has_text(texts[texts.len() - 1]));
        lemma_nothing_appended(buffer, earlier);
    }
}

/// The state after `n` iterations without text, with resets carried out.
pub open spec fn after_silence(state: ChannelState, n: nat) -> ChannelState
    decreases n,
{
    if n == 0 {
        state
    } else {
        let stepped = after_silence(state, (n - 1) as nat).stepped(Seq::empty());
        if stepped.reset_pending() {
            stepped.reset()
        } else {
            stepped
        }
    }
}

/// How often the model is reset in `n` iterations without text.
pub open spec fn resets_in_silence(state: ChannelState, n: nat) -> nat
    decreases n,
{
    if n == 0 {
        0
    } else {
        let earlier = resets_in_silence(state, (n - 1) as nat);
        if after_silence(state, (n - 1) as nat).stepped(Seq::empty()).reset_pending() {
            earlier + 1
        } else {
            earlier
        }
    }
}

/// All iterations without text have the same effect.
pub proof fn law_empty_answers_are_alike(state: ChannelState, texts: Seq<Option<String>>)
    requires
        !any_text(texts),
    ensures
        state.stepped(texts) == state.stepped(Seq::empty()),
{
    let none = Seq::<Option<String>>::empty();
    assert(!any_text(none));
    lemma_nothing_appended(state.buffer, texts);
    lemma_nothing_appended(state.buffer, none);
}

/// What a flush emits is final, belongs to its source, is not empty and has no
/// white space at either end.
pub proof fn law_emitted_text_is_trimmed(
    transcript: Transcript,
    source: AudioSource,
    buffer: Seq<char>,
)
    requires
        is_flush(Some(transcript), source, buffer),
    ensures
        transcript.source == source,
        transcript.is_final,
        transcript.text@.len() > 0,
        !white_space(transcript.text@.first()),
        !white_space(transcript.text@.last()),
{
    lemma_trim_ends(decoded(buffer));
}

/// When the model is reset for silence, nothing is buffered.
pub proof fn law_reset_finds_nothing_buffered(state: ChannelState)
    requires
        state.valid(),
        state.reset_pending(),
    ensures
        state.buffer.len() == 0,
{
}

/// A model that has produced no output is not reset, however long the silence.
pub proof fn law_no_reset_before_output(state: ChannelState, n: nat)
    requires
        !state.warmed_up,
    ensures
        resets_in_silence(state, n) == 0,
        !after_silence(state, n).warmed_up,
    decreases n,
{
    if n > 0 {
        law_no_reset_before_output(state, (n - 1) as nat);
    }
}

/// One silence resets the model at most once.
pub proof fn law_one_reset_per_silence(state: ChannelState, n: nat)
    ensures
        resets_in_silence(state, n) <= 1,
        resets_in_silence(state, n) == 1 ==> !after_silence(state, n).warmed_up,
    decreases n,
{
    if n > 0 {
        law_one_reset_per_silence(state, (n - 1) as nat);
    }
}

/// A model that has produced output is reset exactly once in any silence that
/// lasts long enough to emit the buffered text and then reach the threshold.
pub proof fn law_long_silence_resets_once(state: ChannelState, n: nat)
    requires
        state.valid(),
        !state.reset_pending(),
        state.warmed_up,
        n >= FLUSH_SILENCE_CHUNKS + RESET_SILENCE_CHUNKS,
    ensures
        resets_in_silence(state, n) == 1,
{
    if state.buffer.len() == 0 {
        lemma_reset_when_emitted(state, n);
    } else {
        lemma_flush_in_silence(state);
        let k = choose|k: nat|
            1 <= k <= FLUSH_SILENCE_CHUNKS && #[trigger] flushed_after(state, k);
        lemma_silence_splits(state, k, (n - k) as nat);
        lemma_reset_when_emitted(after_silence(state, k), (n - k) as nat);
    }
}

/// A model that has produced output and whose text was all emitted is reset
/// exactly once in a silence that reaches the threshold.
proof fn lemma_reset_when_emitted(state: ChannelState, n: nat)
    requires
        state.valid(),
        !state.reset_pending(),
        state.warmed_up,
        state.buffer.len() == 0,
        state.streak + n >= RESET_SILENCE_CHUNKS,
    ensures
        resets_in_silence(state, n) == 1,
{
    let first = (RESET_SILENCE_CHUNKS - state.streak) as nat;
    lemma_counting_silence(state, (first - 1) as nat);
    lemma_nothing_appended(state.buffer, Seq::empty());
    lemma_silence_splits(state, first, (n - first) as nat);
    law_no_reset_before_output(after_silence(state, first), (n - first) as nat);
}

/// A silence is two silences, one after the other.
proof fn lemma_silence_splits(state: ChannelState, a: nat, b: nat)
    ensures
        after_silence(state, a + b) == after_silence(after_silence(state, a), b),
        resets_in_silence(state, a + b) == resets_in_silence(state, a) + resets_in_silence(
            after_silence(state, a),
            b,
        ),
    decreases b,
{
    if b > 0 {
        lemma_silence_splits(state, a, (b - 1) as nat);
        assert((a + b - 1) as nat == a + (b - 1) as nat);
    }
}

/// Whether the buffered text was emitted in the last of `k` iterations without
/// text, and nothing else happened.
spec fn flushed_after(state: ChannelState, k: nat) -> bool {
    &&& after_silence(state, k) == (ChannelState {
        buffer: Seq::empty(),
        streak: 0,
        warmed_up: state.warmed_up,
    })
    &&& resets_in_silence(state, k) == 0
}

proof fn lemma_counting_silence(state: ChannelState, n: nat)
    requires
        state.warmed_up,
        state.buffer.len() == 0,
        state.streak + n < RESET_SILENCE_CHUNKS,
    ensures
        resets_in_silence(state, n) == 0,
        after_silence(state, n) == (ChannelState { streak: state.streak + n, ..state }),
    decreases n,
{
    if n > 0 {
        lemma_counting_silence(state, (n - 1) as nat);
        lemma_nothing_appended(state.buffer, Seq::empty());
    }
}

/// Between iterations no finished sentence and no long text is left waiting.
pub proof fn law_due_text_does_not_wait(state: ChannelState, texts: Seq<Option<String>>)
    ensures
        !state.stepped(texts).flush_due(),
        state.stepped(texts).buffer.len() > 0 ==> words(
            decoded(state.stepped(texts).buffer),
        ).len() < MAX_WORDS_BEFORE_FLUSH && !sentence_ended(decoded(state.stepped(texts).buffer)),
{
}

/// Buffered text waits for at most three iterations without text.
pub proof fn law_silence_flushes(state: ChannelState)
    requires
        state.valid(),
        state.buffer.len() > 0,
    ensures
        exists|k: nat|
            1 <= k <= FLUSH_SILENCE_CHUNKS && (#[trigger] after_silence(state, k)).buffer.len()
                == 0,
{
    lemma_flush_in_silence(state);
    let k = choose|k: nat| 1 <= k <= FLUSH_SILENCE_CHUNKS && #[trigger] flushed_after(state, k);
    assert(after_silence(state, k).buffer.len() == 0);
}

proof fn lemma_flush_in_silence(state: ChannelState)
    requires
        state.valid(),
        state.buffer.len() > 0,
    ensures
        exists|k: nat| 1 <= k <= FLUSH_SILENCE_CHUNKS && #[trigger] flushed_after(state, k),
{
    let silent = Seq::<Option<String>>::empty();
    assert(!any_text(silent));
    reveal_with_fuel(after_silence, 4);
    reveal_with_fuel(resets_in_silence, 4);
    lemma_nothing_appended(state.buffer, silent);
    lemma_nothing_appended(Seq::empty(), silent);
    assert(after_silence(state, 0) == state);
    if !flushed_after(state, 1) {
        if !flushed_after(state, 2) {
            assert(flushed_after(state, 3));
        }
    }
}

} // verus!
