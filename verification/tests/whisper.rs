use splitstream::backends::whisper::{
    is_artifact, segment_transcript, segment_transcripts, window_samples, WhisperChannel,
};
use splitstream::AudioSource;

#[test]
fn artifacts() {
    for text in [
        "[BLANK_AUDIO]",
        "[]",
        "you",
        "You",
        "Thank you.",
        "Thanks.",
        "Thanks for watching.",
        "Thank you for watching.",
    ] {
        assert!(is_artifact(text), "{text}");
    }
    for text in ["", "[", "]", "YOU", "Thank you", "thanks.", "[a] b", "you see"] {
        assert_eq!(is_artifact(text), text.starts_with('[') && text.ends_with(']'), "{text}");
    }
}

#[test]
fn speech_is_trimmed() {
    let transcript = segment_transcript(AudioSource::Mic, "  Good morning. ").unwrap();
    assert_eq!(transcript.source, AudioSource::Mic);
    assert_eq!(transcript.text, "Good morning.");
    assert!(transcript.is_final);
    assert!(segment_transcript(AudioSource::Mic, "  you ").is_none());
    assert!(segment_transcript(AudioSource::Mic, " \n").is_none());
    assert!(segment_transcript(AudioSource::Mic, " [MUSIC] ").is_none());
}

#[test]
fn segments_keep_their_order() {
    let segments = vec![
        Some(" First.".to_string()),
        None,
        Some("[noise]".to_string()),
        Some(" Second.".to_string()),
    ];
    let texts: Vec<String> = segment_transcripts(AudioSource::Sys, &segments)
        .into_iter()
        .map(|t| t.text)
        .collect();
    assert_eq!(texts, vec!["First.", "Second."]);
}

#[test]
fn inference_waits_for_the_window() {
    let mut channel = WhisperChannel::new(5);
    assert_eq!(channel.on_batches(&vec![vec![1, 2], vec![3]]), None);
    assert_eq!(
        channel.on_batches(&vec![vec![4], vec![5, 6]]),
        Some(vec![1, 2, 3, 4, 5, 6])
    );
    assert_eq!(channel.on_batches(&vec![vec![7, 8, 9, 10]]), None);
    assert_eq!(channel.on_batches(&vec![vec![11]]), Some(vec![7, 8, 9, 10, 11]));
}

#[test]
fn windows_in_samples() {
    assert_eq!(window_samples(4), 64_000);
    assert_eq!(window_samples(0), 0);
}
