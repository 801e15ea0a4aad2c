use serde_json::Value;
use splitstream::transcript_msg::{Alternative, Channel, TranscriptMessage};
use splitstream::AudioSource;

fn parse(json: &str) -> TranscriptMessage {
    let value: Value = serde_json::from_str(json).unwrap();
    TranscriptMessage {
        msg_type: value["type"].as_str().unwrap().to_string(),
        channel_index: value["channel_index"]
            .as_array()
            .map(|list| list.iter().map(|n| n.as_u64().unwrap() as u32).collect()),
        is_final: value["is_final"].as_bool().unwrap_or(false),
        channel: value["channel"]["alternatives"].as_array().map(|list| Channel {
            alternatives: list
                .iter()
                .map(|a| Alternative {
                    transcript: a["transcript"].as_str().unwrap().to_string(),
                    confidence: a["confidence"].as_f64().unwrap().to_bits(),
                })
                .collect(),
        }),
    }
}

#[test]
fn transcript_from_results_message() {
    let json = r#"{
        "type": "Results",
        "channel_index": [0, 2],
        "is_final": true,
        "channel": {
            "alternatives": [{"transcript": "hello world", "confidence": 0.99}]
        }
    }"#;
    let msg = parse(json);
    assert_eq!(msg.msg_type, "Results");
    assert!(msg.is_final);
    assert_eq!(msg.transcript(), Some("hello world"));
    assert_eq!(msg.channel_num(), Some(0));
}

#[test]
fn transcript_returns_none_without_channel() {
    let json = r#"{"type": "Results", "is_final": false}"#;
    let msg = parse(json);
    assert!(msg.transcript().is_none());
    assert!(msg.channel_num().is_none());
}

#[test]
fn transcript_returns_none_for_empty_alternatives() {
    let json = r#"{
        "type": "Results",
        "channel_index": [1, 2],
        "is_final": true,
        "channel": {"alternatives": []}
    }"#;
    let msg = parse(json);
    assert!(msg.transcript().is_none());
    assert_eq!(msg.channel_num(), Some(1));
}

#[test]
fn channel_num_returns_none_for_empty_index() {
    let json = r#"{"type": "Results", "channel_index": [], "is_final": false}"#;
    let msg = parse(json);
    assert!(msg.channel_num().is_none());
}

#[test]
fn non_results_message_has_no_channel() {
    let json = r#"{"type": "Metadata", "is_final": false}"#;
    let msg = parse(json);
    assert_eq!(msg.msg_type, "Metadata");
    assert!(msg.channel.is_none());
}

fn message(kind: &str, text: &str, index: &str) -> TranscriptMessage {
    parse(&format!(
        r#"{{"type": "{kind}", "channel_index": {index}, "is_final": true,
            "channel": {{"alternatives": [
                {{"transcript": "{text}", "confidence": 0.5}},
                {{"transcript": "other", "confidence": 0.1}}
            ]}}}}"#
    ))
}

#[test]
fn results_become_events() {
    let event = message("Results", "good morning", "[1, 2]").event().unwrap();
    assert_eq!(event.source, AudioSource::Sys);
    assert_eq!(event.text, "good morning");
    assert!(event.is_final);
    let event = message("Results", "hi", "[0, 2]").event().unwrap();
    assert_eq!(event.source, AudioSource::Mic);
    assert_eq!(event.text, "hi");
}

#[test]
fn other_messages_become_no_events() {
    assert!(message("Metadata", "hi", "[0, 2]").event().is_none());
    assert!(message("Results", "", "[0, 2]").event().is_none());
    assert!(message("Results", "hi", "[2, 3]").event().is_none());
    assert!(message("Results", "hi", "[]").event().is_none());
    assert!(parse(r#"{"type": "Results", "channel_index": [0, 2]}"#).event().is_none());
}
