//! What the Whisper backend does, in terms of audio, segments and transcripts.

use crate::backends::whisper::{
    is_artifact, segment_transcript, segment_transcripts, spoken, window_samples, WhisperChannel,
};
use crate::laws::text::{is_core, readable};
use crate::sample::joined;
use crate::text::trim;
use crate::transcript::{AudioSource, Transcript};
use vstd::prelude::*;
use vstd::string::*;

verus! {

/// Whether a text begins with an opening and ends with a closing square bracket.
pub open spec fn bracketed(text: Seq<char>) -> bool {
    text.len() > 0 && text[0] == '[' && text[text.len() - 1] == ']'
}

/// The phrases that the model makes up for noise.
pub open spec fn stock_phrases() -> Seq<Seq<char>> {
    seq![
        "you"@,
        "You"@,
        "Thank you."@,
        "Thanks."@,
        "Thanks for watching."@,
        "Thank you for watching."@,
    ]
}

proof fn lemma_phrases()
    ensures
        forall|i: int| 0 <= i < 6 ==> 3 <= (#[trigger] stock_phrases()[i]).len() <= 23,
        forall|i: int| 0 <= i < 6 ==> (#[trigger] stock_phrases()[i])[0] != '[',
        forall|text: Seq<char>| #[trigger]
            crate::backends::whisper::artifact(text) <==> bracketed(text)
                || stock_phrases().contains(text),
{
    reveal_strlit("you");
    reveal_strlit("You");
    reveal_strlit("Thank you.");
    reveal_strlit("Thanks.");
    reveal_strlit("Thanks for watching.");
    reveal_strlit("Thank you for watching.");
    let p = stock_phrases();
    assert(p[0] == "you"@ && p[1] == "You"@ && p[2] == "Thank you."@ && p[3] == "Thanks."@ && p[4]
        == "Thanks for watching."@ && p[5] == "Thank you for watching."@);
}

/// An artifact is a text in square brackets or one of six phrases, none longer than
/// 23 characters; any other text is speech.
pub proof fn law_artifacts_are_few(text: &str, yes: bool)
    requires
        call_ensures(is_artifact, (text,), yes),
    ensures
        yes <==> bracketed(text@) || stock_phrases().contains(text@),
        text@.len() > 23 && !bracketed(text@) ==> !yes,
        text@.len() < 2 ==> !yes || bracketed(text@),
{
    lemma_phrases();
}

/// The same question has the same answer: no more than six texts without square
/// brackets are artifacts.
pub proof fn law_six_artifacts(texts: Seq<&str>)
    requires
        texts.len() == 7,
        forall|i: int| 0 <= i < 7 ==> call_ensures(is_artifact, (#[trigger] texts[i],), true),
        forall|i: int| 0 <= i < 7 ==> !bracketed((#[trigger] texts[i])@),
    ensures
        exists|i: int, j: int| 0 <= i < j < 7 && (#[trigger] texts[i])@ == (#[trigger] texts[j])@,
{
    lemma_phrases();
    let p = stock_phrases();
    assert forall|i: int| 0 <= i < 7 implies exists|k: int|
        0 <= k < 6 && p[k] == (#[trigger] texts[i])@ by {
        assert(call_ensures(is_artifact, (texts[i],), true));
        assert(p.contains(texts[i]@));
    }
    let k = |i: int| choose|k: int| 0 <= k < 6 && p[k] == texts[i]@;
    let (a, b, c, d, e, f, g) = (k(0), k(1), k(2), k(3), k(4), k(5), k(6));
    assert(p[a] == texts[0]@ && p[b] == texts[1]@ && p[c] == texts[2]@ && p[d] == texts[3]@ && p[e]
        == texts[4]@ && p[f] == texts[5]@ && p[g] == texts[6]@);
}

/// A segment is emitted exactly if it is readable and, without white space at its
/// ends, is neither in square brackets nor a stock phrase; the transcript is final,
/// of the given source, and holds that text.
pub proof fn law_segments_of_speech_are_emitted(
    source: AudioSource,
    segment: &str,
    transcript: Option<Transcript>,
    core: Seq<char>,
    lo: int,
    hi: int,
)
    requires
        call_ensures(segment_transcript, (source, segment), transcript),
        is_core(segment@, core, lo, hi),
    ensures
        transcript is Some <==> core.len() > 0 && !bracketed(core) && !stock_phrases().contains(
            core,
        ),
        core.len() > 23 && !bracketed(core) ==> transcript is Some,
        transcript matches Some(t) ==> t.text@ == core && t.source == source && t.is_final,
{
    lemma_phrases();
    crate::laws::text::law_trim_finds_the_core(segment@);
    let (a, b) = choose|a: int, b: int| is_core(segment@, trim(segment@), a, b);
    crate::laws::text::law_core_is_unique(segment@, core, trim(segment@), lo, hi, a, b);
}

/// The segments of one inference lead to the transcripts that they lead to one by
/// one, in order.
pub proof fn law_segments_are_independent(
    source: AudioSource,
    first: Vec<Option<String>>,
    second: Vec<Option<String>>,
    all: Vec<Option<String>>,
    a: Vec<Transcript>,
    b: Vec<Transcript>,
    c: Vec<Transcript>,
)
    requires
        all@ == first@ + second@,
        call_ensures(segment_transcripts, (source, &first), a),
        call_ensures(segment_transcripts, (source, &second), b),
        call_ensures(segment_transcripts, (source, &all), c),
    ensures
        c@.len() == a@.len() + b@.len(),
        forall|i: int|
            0 <= i < c@.len() ==> (#[trigger] c@[i]).text@ == if i < a@.len() {
                a@[i].text@
            } else {
                b@[i - a@.len()].text@
            },
        forall|i: int| 0 <= i < c@.len() ==> (#[trigger] c@[i]).source == source && c@[i].is_final,
{
    lemma_spoken_concat(first@, second@);
}

proof fn lemma_spoken_concat(a: Seq<Option<String>>, b: Seq<Option<String>>)
    ensures
        spoken(a + b) == spoken(a) + spoken(b),
    decreases b.len(),
{
    if b.len() == 0 {
        assert(a + b =~= a);
        assert(spoken(a) + spoken(b) =~= spoken(a));
    } else {
        lemma_spoken_concat(a, b.drop_last());
        assert((a + b).drop_last() =~= a + b.drop_last());
        let before = spoken(a) + spoken(b.drop_last());
        assert(spoken(a + b) =~= spoken(a) + spoken(b));
    }
}

/// A single segment leads to one transcript if it is speech, and to none if it is
/// not or if the model has no text for it.
pub proof fn law_single_segment(
    source: AudioSource,
    segments: Vec<Option<String>>,
    list: Vec<Transcript>,
    core: Seq<char>,
    lo: int,
    hi: int,
)
    requires
        segments@.len() == 1,
        call_ensures(segment_transcripts, (source, &segments), list),
        segments@[0] matches Some(text) ==> is_core(text@, core, lo, hi),
    ensures
        list@.len() == if segments@[0] is Some && core.len() > 0 && !bracketed(core)
            && !stock_phrases().contains(core) {
            1nat
        } else {
            0nat
        },
        list@.len() == 1 ==> list@[0].text@ == core && list@[0].source == source
            && list@[0].is_final,
{
    lemma_phrases();
    let s = segments@;
    assert(s.drop_last() =~= Seq::empty());
    assert(spoken(s.drop_last()) =~= Seq::empty());
    if let Some(text) = s[0] {
        crate::laws::text::law_trim_finds_the_core(text@);
        let (a, b) = choose|a: int, b: int| is_core(text@, trim(text@), a, b);
        crate::laws::text::law_core_is_unique(text@, core, trim(text@), lo, hi, a, b);
    }
}

/// A channel collects all audio that arrives, in order, and hands all of it over
/// once there is enough for a window; then it starts over.
pub proof fn law_audio_is_collected(
    channel: &mut WhisperChannel,
    batches: &Vec<Vec<u32>>,
    chunk: Option<Vec<u32>>,
)
    requires
        call_ensures(WhisperChannel::on_batches, (channel, batches), chunk),
    ensures
        ({
            let all = old(channel).collected() + joined(batches@.map_values(|v: Vec<u32>| v@));
            match chunk {
                Some(samples) => {
                    &&& samples@ == all
                    &&& all.len() >= old(channel).window()
                    &&& final(channel).collected().len() == 0
                },
                None => all.len() < old(channel).window() && final(channel).collected() == all,
            }
        }),
        final(channel).window() == old(channel).window(),
{
    assert(batches@.map_values(|v: Vec<u32>| v@) =~= crate::backends::whisper::runs(batches@));
}

/// A new channel has collected nothing and waits for the given number of samples; a
/// window has 16000 samples a second.
pub proof fn law_whisper_window(seconds: u32, samples: usize, channel: WhisperChannel)
    requires
        call_ensures(window_samples, (seconds,), samples),
        call_ensures(WhisperChannel::new, (samples,), channel),
    ensures
        samples == 16000 * seconds,
        channel.window() == samples,
        channel.collected().len() == 0,
{
}

} // verus!
