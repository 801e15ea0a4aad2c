use splitstream::backends::parakeet::{
    ends_sentence, fix_sentencepiece, flush, ParakeetChannel, RESET_SILENCE_CHUNKS,
};
use splitstream::{AudioSource, Transcript};

fn answers(texts: &[&str]) -> Vec<Option<String>> {
    texts.iter().map(|t| Some(t.to_string())).collect()
}

fn text(transcript: Option<Transcript>) -> Option<String> {
    transcript.map(|t| {
        assert!(t.is_final);
        t.text
    })
}

#[test]
fn sentence_ends() {
    assert!(ends_sentence("Hello."));
    assert!(ends_sentence("Really?  "));
    assert!(ends_sentence("!"));
    assert!(!ends_sentence("Hello"));
    assert!(!ends_sentence("a. b"));
    assert!(!ends_sentence("   "));
    assert!(!ends_sentence(""));
}

#[test]
fn word_markers_become_spaces() {
    assert_eq!(fix_sentencepiece("\u{2581}hello\u{2581}world"), " hello world");
    assert_eq!(fix_sentencepiece("plain"), "plain");
}

#[test]
fn flush_empties_and_cleans() {
    let mut buffer = "\u{2581}good\u{2581}day[EOU] ".to_string();
    let transcript = flush(&mut buffer, AudioSource::Sys).unwrap();
    assert_eq!(transcript.source, AudioSource::Sys);
    assert_eq!(transcript.text, "good day");
    assert!(transcript.is_final);
    assert_eq!(buffer, "");
    let mut blank = "\u{2581}[EOU]\u{2581}".to_string();
    assert!(flush(&mut blank, AudioSource::Mic).is_none());
    assert_eq!(blank, "");
}

#[test]
fn a_finished_sentence_is_emitted_at_once() {
    let mut channel = ParakeetChannel::new(AudioSource::Mic);
    let step = channel.on_texts(&answers(&["\u{2581}it", "\u{2581}works."]));
    assert_eq!(text(step.transcript), Some("it works.".to_string()));
    assert!(!step.reset);
}

#[test]
fn eight_words_are_emitted() {
    let mut channel = ParakeetChannel::new(AudioSource::Mic);
    let step = channel.on_texts(&answers(&[" one two three four five six seven"]));
    assert!(step.transcript.is_none());
    let step = channel.on_texts(&answers(&[" eight"]));
    assert_eq!(
        text(step.transcript),
        Some("one two three four five six seven eight".to_string())
    );
}

#[test]
fn a_short_pause_emits() {
    let mut channel = ParakeetChannel::new(AudioSource::Sys);
    assert!(channel.on_texts(&answers(&[" wait"])).transcript.is_none());
    assert!(channel.on_texts(&answers(&["  "])).transcript.is_none());
    assert!(channel.on_texts(&vec![None]).transcript.is_none());
    let step = channel.on_texts(&answers(&[""]));
    assert_eq!(text(step.transcript), Some("wait".to_string()));
}

#[test]
fn long_silence_resets_exactly_once() {
    let mut channel = ParakeetChannel::new(AudioSource::Mic);
    channel.on_texts(&answers(&["Hi."]));
    let mut resets = Vec::new();
    for n in 1..=40usize {
        let step = channel.on_texts(&answers(&[""]));
        assert!(step.transcript.is_none());
        if step.reset {
            resets.push(n);
            assert!(channel.finish_reset(&answers(&["", " ", ""])).is_none());
        }
    }
    assert_eq!(resets, vec![RESET_SILENCE_CHUNKS]);
}

#[test]
fn a_silence_after_waiting_text_resets_once() {
    let mut channel = ParakeetChannel::new(AudioSource::Mic);
    channel.on_texts(&answers(&[" unfinished"]));
    assert_eq!(channel.empty_streak(), 0);
    let (mut emitted, mut resets) = (Vec::new(), 0);
    for _ in 0..60 {
        let step = channel.on_texts(&answers(&[" "]));
        emitted.extend(text(step.transcript));
        if step.reset {
            resets += 1;
            emitted.extend(text(channel.finish_reset(&answers(&[]))));
        }
    }
    assert_eq!(emitted, vec!["unfinished"]);
    assert_eq!(resets, 1);
}

#[test]
fn no_reset_during_warm_up() {
    let mut channel = ParakeetChannel::new(AudioSource::Mic);
    for _ in 0..40 {
        assert!(!channel.on_texts(&answers(&[""])).reset);
    }
}

#[test]
fn text_recognised_during_a_reset_is_emitted() {
    let mut channel = ParakeetChannel::new(AudioSource::Mic);
    channel.on_texts(&answers(&["Hi."]));
    let mut reset = false;
    while !reset {
        reset = channel.on_texts(&answers(&[""])).reset;
    }
    let transcript = channel.finish_reset(&vec![Some(" last".to_string()), None, Some(" word".to_string())]);
    assert_eq!(text(transcript), Some("last word".to_string()));
}

#[test]
fn timeout_emits_and_starts_over() {
    let mut channel = ParakeetChannel::new(AudioSource::Mic);
    channel.on_texts(&answers(&[" half a"]));
    let transcript = channel.on_timeout(&answers(&[" thought", "", ""]));
    assert_eq!(text(transcript), Some("half a thought".to_string()));
    assert!(channel.on_timeout(&answers(&["", "", ""])).is_none());
    for _ in 0..20 {
        assert!(!channel.on_texts(&answers(&[""])).reset);
    }
}

#[test]
fn disconnect_emits_the_rest() {
    let mut channel = ParakeetChannel::new(AudioSource::Sys);
    channel.on_texts(&answers(&[" bye"]));
    let transcript = channel.on_disconnect().unwrap();
    assert_eq!(transcript.source, AudioSource::Sys);
    assert_eq!(transcript.text, "bye");
    assert!(channel.on_disconnect().is_none());
}
