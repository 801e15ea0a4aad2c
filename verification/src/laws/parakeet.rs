//! What a Parakeet channel does, in terms of the model's answers and what it emits.

use crate::backends::parakeet::{
    appended, decoded, ends_sentence, fix_sentencepiece, flush, has_text, ChannelStep,
    ParakeetChannel,
};
use crate::laws::text::{is_core, readable};
use crate::text::{trim_end, white_space, words};
use crate::transcript::{AudioSource, Transcript};
use vstd::prelude::*;
use vstd::string::*;

verus! {

/// The text of the answers that say something, one after the other.
pub open spec fn said(answers: Seq<Option<String>>) -> Seq<char>
    decreases answers.len(),
{
    if answers.len() == 0 {
        Seq::empty()
    } else {
        let rest = said(answers.drop_first());
        match answers.first() {
            Some(text) => if readable(text@) {
                text@ + rest
            } else {
                rest
            },
            None => rest,
        }
    }
}

/// Whether any of the answers says something.
pub open spec fn says_something(answers: Seq<Option<String>>) -> bool {
    exists|i: int|
        0 <= i < answers.len() && (#[trigger] answers[i]) is Some && readable(answers[i]->0@)
}

/// Whether the last character that is not white space is a full stop, a question
/// mark or an exclamation mark.
pub open spec fn ends_with_a_stop(text: Seq<char>) -> bool {
    exists|i: int|
        {
            &&& 0 <= i < text.len()
            &&& (#[trigger] text[i] == '.' || text[i] == '?' || text[i] == '!')
            &&& forall|j: int| i < j < text.len() ==> white_space(#[trigger] text[j])
        }
}

/// Whether a transcript is right for buffered text: it is there exactly if the
/// text, once decoded, is readable, and then it is the core of that.
pub open spec fn emits(transcript: Option<Transcript>, source: AudioSource, buffer: Seq<char>) -> bool {
    match transcript {
        Some(t) => {
            &&& readable(decoded(buffer))
            &&& t.source == source
            &&& t.is_final
            &&& exists|lo: int, hi: int| is_core(decoded(buffer), t.text@, lo, hi)
        },
        None => !readable(decoded(buffer)),
    }
}

proof fn lemma_has_text(answer: Option<String>)
    ensures
        has_text(answer) <==> answer is Some && readable(answer->0@),
{
    crate::laws::text::law_trim_finds_the_core(crate::backends::parakeet::answer(answer));
}

/// The buffer grows by what the answers say, in order and with nothing left out.
pub proof fn law_answers_are_buffered(buffer: Seq<char>, answers: Seq<Option<String>>)
    ensures
        appended(buffer, answers) == buffer + said(answers),
        crate::backends::parakeet::any_text(answers) <==> says_something(answers),
    decreases answers.len(),
{
    assert forall|i: int| 0 <= i < answers.len() implies (has_text(#[trigger] answers[i]) <==> answers[i]
        is Some && readable(answers[i]->0@)) by {
        lemma_has_text(answers[i]);
    }
    if answers.len() > 0 {
        lemma_appended_front(buffer, answers);
        let first = answers.first();
        let grown = if has_text(first) {
            buffer + crate::backends::parakeet::answer(first)
        } else {
            buffer
        };
        law_answers_are_buffered(grown, answers.drop_first());
        lemma_has_text(first);
        assert(grown + said(answers.drop_first()) =~= buffer + said(answers));
    } else {
        assert(buffer + said(answers) =~= buffer);
    }
}

proof fn lemma_appended_front(buffer: Seq<char>, answers: Seq<Option<String>>)
    requires
        answers.len() > 0,
    ensures
        appended(buffer, answers) == appended(
            if has_text(answers.first()) {
                buffer + crate::backends::parakeet::answer(answers.first())
            } else {
                buffer
            },
            answers.drop_first(),
        ),
    decreases answers.len(),
{
    let rest = answers.drop_first();
    if answers.len() == 1 {
        assert(answers.drop_last() =~= Seq::empty());
        assert(appended(buffer, answers.drop_last()) == buffer);
    } else {
        lemma_appended_front(buffer, answers.drop_last());
        assert(answers.drop_last().drop_first() =~= rest.drop_last());
    }
}

/// The character that another is decoded to.
pub open spec fn decoded_char(c: char) -> char {
    if c == '\u{2581}' {
        ' '
    } else {
        c
    }
}

proof fn lemma_decode_char(text: Seq<char>)
    requires
        text.len() > 0,
        !seq!['[', 'E', 'O', 'U', ']'].is_prefix_of(text),
    ensures
        decoded(text) == seq![decoded_char(text[0])] + decoded(text.skip(1)),
{
    reveal_strlit("[EOU]");
    let mark = seq!['[', 'E', 'O', 'U', ']'];
    assert("[EOU]"@ =~= mark);
    let spaced = crate::backends::parakeet::with_spaces(text);
    if mark.is_prefix_of(spaced) {
        assert forall|i: int| 0 <= i < 5 implies mark[i] == text[i] by {
            assert(spaced[i] == mark[i]);
        }
        assert(mark =~= text.subrange(0, 5));
    }
    crate::laws::text::lemma_remove_step(spaced, mark);
    assert(spaced.skip(1) =~= crate::backends::parakeet::with_spaces(text.skip(1)));
}

proof fn lemma_decode_mark(text: Seq<char>)
    ensures
        decoded(seq!['[', 'E', 'O', 'U', ']'] + text) == decoded(text),
{
    reveal_strlit("[EOU]");
    let mark = seq!['[', 'E', 'O', 'U', ']'];
    assert("[EOU]"@ =~= mark);
    let spaced = crate::backends::parakeet::with_spaces(text);
    let whole = crate::backends::parakeet::with_spaces(mark + text);
    assert(whole =~= mark + spaced);
    assert(whole.take(5) =~= mark);
    assert(whole.skip(5) =~= spaced);
}

/// Decoding reads the text from left to right: an end-of-utterance mark is left
/// out, a word marker becomes a space, and any other character stays.
pub proof fn law_decoding(text: Seq<char>)
    ensures
        decoded(Seq::empty()) == Seq::<char>::empty(),
        decoded(seq!['[', 'E', 'O', 'U', ']'] + text) == decoded(text),
        text.len() > 0 && !seq!['[', 'E', 'O', 'U', ']'].is_prefix_of(text) ==> decoded(text)
            == seq![
            if text[0] == '\u{2581}' {
                ' '
            } else {
                text[0]
            },
        ] + decoded(text.skip(1)),
{
    lemma_decode_mark(text);
    lemma_decode_nothing();
    if text.len() > 0 && !seq!['[', 'E', 'O', 'U', ']'].is_prefix_of(text) {
        lemma_decode_char(text);
    }
}

proof fn lemma_decode_nothing()
    ensures
        decoded(Seq::empty()) == Seq::<char>::empty(),
{
    reveal_strlit("[EOU]");
    assert(crate::backends::parakeet::with_spaces(Seq::empty()) =~= Seq::empty());
}

/// A first character other than a square bracket is decoded by itself.
proof fn lemma_decode_first(text: Seq<char>)
    requires
        text.len() > 0,
        text[0] != '[',
    ensures
        decoded(text) == seq![decoded_char(text[0])] + decoded(text.skip(1)),
{
    let mark = seq!['[', 'E', 'O', 'U', ']'];
    if mark.is_prefix_of(text) {
        assert(mark[0] == text[0]);
    }
    lemma_decode_char(text);
}

/// Whether `shown` is `text` with word markers as spaces.
pub open spec fn shows(text: Seq<char>, shown: Seq<char>) -> bool {
    &&& shown.len() == text.len()
    &&& forall|i: int|
        0 <= i < text.len() ==> #[trigger] shown[i] == decoded_char(text[i])
}

proof fn lemma_shows_step(text: Seq<char>, rest: Seq<char>)
    requires
        text.len() > 0,
        shows(text.skip(1), rest),
    ensures
        shows(text, seq![decoded_char(text[0])] + rest),
{
    let shown = seq![decoded_char(text[0])] + rest;
    assert forall|i: int| 0 <= i < text.len() implies #[trigger] shown[i] == decoded_char(text[i]) by {
        if i > 0 {
            assert(shown[i] == rest[i - 1]);
            assert(text.skip(1)[i - 1] == text[i]);
        }
    }
}

/// Text without a square bracket is decoded character by character.
pub proof fn law_plain_text_is_decoded(text: Seq<char>)
    requires
        !text.contains('['),
    ensures
        shows(text, decoded(text)),
    decreases text.len(),
{
    if text.len() > 0 {
        let rest = text.skip(1);
        assert(text[0] != '[');
        if rest.contains('[') {
            let i = choose|i: int| 0 <= i < rest.len() && rest[i] == '[';
            assert(text[i + 1] == '[');
        }
        law_plain_text_is_decoded(rest);
        lemma_decode_first(text);
        lemma_shows_step(text, decoded(rest));
    } else {
        lemma_decode_nothing();
        assert(text =~= Seq::empty());
    }
}

proof fn lemma_flush_emits(transcript: Option<Transcript>, source: AudioSource, buffer: Seq<char>)
    requires
        crate::backends::parakeet::is_flush(transcript, source, buffer),
    ensures
        emits(transcript, source, buffer),
{
    crate::laws::text::law_trim_finds_the_core(decoded(buffer));
}

/// A flush emits a transcript exactly if the decoded buffer holds anything but
/// white space, however short; the transcript is final, of the given source, and
/// holds that text without white space at either end. The buffer is then empty.
pub proof fn law_flush_loses_nothing(
    buffer: &mut String,
    source: AudioSource,
    transcript: Option<Transcript>,
)
    requires
        call_ensures(flush, (buffer, source), transcript),
    ensures
        emits(transcript, source, old(buffer)@),
        transcript is Some <==> readable(decoded(old(buffer)@)),
        final(buffer)@.len() == 0,
{
    lemma_flush_emits(transcript, source, old(buffer)@);
}

/// A buffer without square brackets in which any character is neither white space
/// nor a word marker is emitted, and the transcript has that character.
pub proof fn law_flush_keeps_every_word(
    buffer: &mut String,
    source: AudioSource,
    transcript: Option<Transcript>,
    i: int,
)
    requires
        call_ensures(flush, (buffer, source), transcript),
        !old(buffer)@.contains('['),
        0 <= i < old(buffer)@.len(),
        !white_space(old(buffer)@[i]),
        old(buffer)@[i] != '\u{2581}',
    ensures
        transcript matches Some(t) && t.text@.contains(old(buffer)@[i]),
{
    let text = old(buffer)@;
    lemma_flush_emits(transcript, source, text);
    law_plain_text_is_decoded(text);
    assert(decoded(text)[i] == text[i]);
    assert(!white_space(decoded(text)[i]));
    assert(readable(decoded(text)));
    if let Some(t) = transcript {
        let (lo, hi) = choose|lo: int, hi: int| is_core(decoded(text), t.text@, lo, hi);
        assert(lo <= i < hi);
        assert(t.text@[i - lo] == text[i]);
    }
}

/// An end-of-utterance mark at the front changes nothing of what is emitted.
pub proof fn law_flush_drops_marks(
    marked: &mut String,
    plain: &mut String,
    source: AudioSource,
    first: Option<Transcript>,
    second: Option<Transcript>,
)
    requires
        old(marked)@ == seq!['[', 'E', 'O', 'U', ']'] + old(plain)@,
        call_ensures(flush, (marked, source), first),
        call_ensures(flush, (plain, source), second),
    ensures
        match (first, second) {
            (Some(a), Some(b)) => a.text@ == b.text@,
            (None, None) => true,
            _ => false,
        },
{
    law_decoding(old(plain)@);
}

/// Word markers become spaces and nothing else changes.
pub proof fn law_fix_sentencepiece(text: &str, fixed: String)
    requires
        call_ensures(fix_sentencepiece, (text,), fixed),
    ensures
        fixed@.len() == text@.len(),
        forall|i: int|
            0 <= i < text@.len() ==> #[trigger] fixed@[i] == if text@[i] == '\u{2581}' {
                ' '
            } else {
                text@[i]
            },
{
}

proof fn lemma_stop(text: Seq<char>)
    ensures
        crate::backends::parakeet::sentence_ended(text) <==> ends_with_a_stop(text),
    decreases text.len(),
{
    if text.len() > 0 {
        if white_space(text.last()) {
            let before = text.drop_last();
            lemma_stop(before);
            if ends_with_a_stop(before) {
                let i = choose|i: int|
                    {
                        &&& 0 <= i < before.len()
                        &&& (#[trigger] before[i] == '.' || before[i] == '?' || before[i] == '!')
                        &&& forall|j: int| i < j < before.len() ==> white_space(#[trigger] before[j])
                    };
                assert(text[i] == before[i]);
                assert forall|j: int| i < j < text.len() implies white_space(#[trigger] text[j]) by {
                    if j < before.len() {
                        assert(before[j] == text[j]);
                    }
                }
            }
            if ends_with_a_stop(text) {
                let i = choose|i: int|
                    {
                        &&& 0 <= i < text.len()
                        &&& (#[trigger] text[i] == '.' || text[i] == '?' || text[i] == '!')
                        &&& forall|j: int| i < j < text.len() ==> white_space(#[trigger] text[j])
                    };
                assert(i < before.len());
                assert(before[i] == text[i]);
                assert forall|j: int| i < j < before.len() implies white_space(
                    #[trigger] before[j],
                ) by {
                    assert(text[j] == before[j]);
                }
            }
        } else {
            let n = text.len() - 1;
            assert(trim_end(text) == text);
            if crate::backends::parakeet::sentence_ended(text) {
                assert(text[n] == '.' || text[n] == '?' || text[n] == '!');
            }
            if ends_with_a_stop(text) {
                let i = choose|i: int|
                    {
                        &&& 0 <= i < text.len()
                        &&& (#[trigger] text[i] == '.' || text[i] == '?' || text[i] == '!')
                        &&& forall|j: int| i < j < text.len() ==> white_space(#[trigger] text[j])
                    };
                if i < n {
                    assert(white_space(text[n]));
                }
            }
        }
    }
}

/// A sentence has ended if nothing but white space follows a full stop, a question
/// mark or an exclamation mark.
pub proof fn law_ends_sentence(text: &str, ends: bool)
    requires
        call_ensures(ends_sentence, (text,), ends),
    ensures
        ends <==> ends_with_a_stop(text@),
{
    lemma_stop(text@);
}

/// An iteration emits what is buffered, with what the answers added, exactly if
/// there is any and it ends a sentence, has eight words or more, or was followed by
/// three iterations that said nothing; otherwise all of it stays buffered.
pub proof fn law_when_text_is_emitted(
    channel: &mut ParakeetChannel,
    answers: &Vec<Option<String>>,
    step: ChannelStep,
)
    requires
        call_ensures(ParakeetChannel::on_texts, (channel, answers), step),
    ensures
        ({
            let buffer = old(channel)@.buffer + said(answers@);
            let streak = if says_something(answers@) {
                0
            } else {
                old(channel)@.streak + 1
            };
            if buffer.len() > 0 && (ends_with_a_stop(decoded(buffer)) || words(
                decoded(buffer),
            ).len() >= 8 || streak >= 3) {
                &&& emits(step.transcript, old(channel).owner(), buffer)
                &&& final(channel)@.buffer.len() == 0
                &&& final(channel)@.streak == 0
            } else {
                &&& step.transcript is None
                &&& final(channel)@.buffer == buffer
                &&& final(channel)@.streak == streak
            }
        }),
        final(channel).owner() == old(channel).owner(),
{
    law_answers_are_buffered(old(channel)@.buffer, answers@);
    let buffer = old(channel)@.buffer + said(answers@);
    lemma_stop(decoded(buffer));
    if old(channel)@.heard(answers@).flush_due() {
        lemma_flush_emits(step.transcript, old(channel).owner(), buffer);
    }
}

/// The model counts as warmed up once it has said something, and is to be reset
/// exactly when it is and twelve iterations in a row have said nothing.
pub proof fn law_when_the_model_is_reset(
    channel: &mut ParakeetChannel,
    answers: &Vec<Option<String>>,
    step: ChannelStep,
)
    requires
        call_ensures(ParakeetChannel::on_texts, (channel, answers), step),
    ensures
        final(channel)@.warmed_up <==> old(channel)@.warmed_up || says_something(answers@),
        step.reset <==> final(channel)@.warmed_up && final(channel)@.streak == 12,
{
    law_answers_are_buffered(old(channel)@.buffer, answers@);
}

/// A reset emits what is buffered, with what the model said to the silence it was
/// fed, and makes the channel cold; the silence is not counted anew.
pub proof fn law_reset_emits_the_rest(
    channel: &mut ParakeetChannel,
    answers: &Vec<Option<String>>,
    transcript: Option<Transcript>,
)
    requires
        call_ensures(ParakeetChannel::finish_reset, (channel, answers), transcript),
    ensures
        emits(transcript, old(channel).owner(), old(channel)@.buffer + said(answers@)),
        final(channel)@.buffer.len() == 0,
        final(channel)@.streak == old(channel)@.streak,
        !final(channel)@.warmed_up,
        final(channel).owner() == old(channel).owner(),
{
    law_answers_are_buffered(old(channel)@.buffer, answers@);
    lemma_flush_emits(transcript, old(channel).owner(), old(channel)@.buffer + said(answers@));
}

/// Two seconds without audio emit the rest likewise, and the channel starts over.
pub proof fn law_timeout_emits_the_rest(
    channel: &mut ParakeetChannel,
    answers: &Vec<Option<String>>,
    transcript: Option<Transcript>,
)
    requires
        call_ensures(ParakeetChannel::on_timeout, (channel, answers), transcript),
    ensures
        emits(transcript, old(channel).owner(), old(channel)@.buffer + said(answers@)),
        final(channel)@.buffer.len() == 0,
        final(channel)@.streak == 0,
        !final(channel)@.warmed_up,
        final(channel).owner() == old(channel).owner(),
{
    law_answers_are_buffered(old(channel)@.buffer, answers@);
    lemma_flush_emits(transcript, old(channel).owner(), old(channel)@.buffer + said(answers@));
}

/// The end of the audio emits what is buffered.
pub proof fn law_disconnect_emits_the_rest(
    channel: &mut ParakeetChannel,
    transcript: Option<Transcript>,
)
    requires
        call_ensures(ParakeetChannel::on_disconnect, (channel,), transcript),
    ensures
        emits(transcript, old(channel).owner(), old(channel)@.buffer),
        final(channel)@.buffer.len() == 0,
{
    lemma_flush_emits(transcript, old(channel).owner(), old(channel)@.buffer);
}

/// A new channel has heard nothing and is cold.
pub proof fn law_new_channel(source: AudioSource, channel: ParakeetChannel)
    requires
        call_ensures(ParakeetChannel::new, (source,), channel),
    ensures
        channel.owner() == source,
        channel@.buffer.len() == 0,
        channel@.streak == 0,
        !channel@.warmed_up,
        channel@.valid(),
{
}

/// A channel tells how many iterations in a row brought no text.
pub proof fn law_streak_is_told(channel: ParakeetChannel, streak: usize)
    requires
        call_ensures(ParakeetChannel::empty_streak, (&channel,), streak),
    ensures
        streak == channel@.streak,
{
}

/// Whatever a channel is told, it stays the channel of its source, a warm model is
/// never silent for more than twelve iterations, and text is never held back for
/// three.
pub proof fn law_channels_stay_ready(
    a: &mut ParakeetChannel,
    b: &mut ParakeetChannel,
    c: &mut ParakeetChannel,
    d: &mut ParakeetChannel,
    answers: &Vec<Option<String>>,
    step: ChannelStep,
    second: Option<Transcript>,
    third: Option<Transcript>,
    fourth: Option<Transcript>,
)
    requires
        call_ensures(ParakeetChannel::on_texts, (a, answers), step),
        call_ensures(ParakeetChannel::finish_reset, (b, answers), second),
        call_ensures(ParakeetChannel::on_timeout, (c, answers), third),
        call_ensures(ParakeetChannel::on_disconnect, (d,), fourth),
    ensures
        final(a)@.valid() && final(b)@.valid() && final(c)@.valid(),
        final(a)@.warmed_up ==> final(a)@.streak <= 12,
        final(b)@.warmed_up ==> final(b)@.streak <= 12,
        final(c)@.warmed_up ==> final(c)@.streak <= 12,
        final(a)@.buffer.len() > 0 ==> final(a)@.streak < 3,
        final(b)@.buffer.len() > 0 ==> final(b)@.streak < 3,
        final(c)@.buffer.len() > 0 ==> final(c)@.streak < 3,
        final(a).owner() == old(a).owner(),
        final(b).owner() == old(b).owner(),
        final(c).owner() == old(c).owner(),
        final(d).owner() == old(d).owner(),
        final(d)@.streak == old(d)@.streak,
        final(d)@.warmed_up == old(d)@.warmed_up,
{
}

} // verus!
