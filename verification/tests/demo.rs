use splitstream::demo::{_frame_size, _share_more_than_three, _shared_words, mute_buffer};
use splitstream::text::string_of;

#[test]
fn test_frame_size_common_rates() {
    assert_eq!(_frame_size(16_000), 320);
    assert_eq!(_frame_size(48_000), 960);
    assert_eq!(_frame_size(44_100), 882);
    assert_eq!(_frame_size(22_050), 441);
}

#[test]
fn frame_size_agrees_with_float_arithmetic() {
    for rate in (0u32..200_000).chain([u32::MAX - 24, u32::MAX]) {
        assert_eq!(_frame_size(rate), (rate as f64 * 20.0 / 1000.0).round() as usize);
    }
}

#[test]
fn muted_buffer_is_silent() {
    let mut buffer = vec![0.5f32.to_bits(); 320];
    mute_buffer(&mut buffer);
    assert_eq!(buffer, vec![0.0f32.to_bits(); 320]);
}

#[test]
fn shared_words_are_counted_with_repetitions() {
    assert!(_share_more_than_three("the quick brown fox", "The QUICK brown Fox jumps"));
    assert!(!_share_more_than_three("the quick brown fox", "the quick brown dog"));
    assert!(_share_more_than_three("hello", "hello Hello HELLO hello"));
    assert!(!_share_more_than_three("hello hello hello hello", "hello"));
    assert!(!_share_more_than_three("", "a b c d"));
    assert!(!_share_more_than_three("a b c d", ""));
}

#[test]
fn shared_words_are_listed_up_to_the_fourth() {
    let list = |a: &str, b: &str| -> Vec<String> {
        _shared_words(a, b).iter().map(string_of).collect()
    };
    assert_eq!(list("one two", "Two three ONE"), vec!["two", "one"]);
    assert_eq!(list("a b c d e", "E d C b a"), vec!["e", "d", "c", "b"]);
    assert!(list("a", "b").is_empty());
}
