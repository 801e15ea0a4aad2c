use splitstream::text::{
    chars_of, decimal_of, is_blank, is_white_space, lowercased, same_text, split_words, string_of,
    trimmed, with_char_replaced, without,
};

const SAMPLES: [&str; 12] = [
    "",
    " ",
    "one",
    " one ",
    "\t one\u{3000}two\n",
    "a  b   c",
    "\u{2581}hello\u{2581}world",
    "[EOU]",
    "hi[EOU] there[EOU][EOU]",
    "[EO[EOU]U]",
    "[EOU",
    "ÀBC Öl ß \u{a0}x\u{85}",
];

#[test]
fn white_space_agrees_with_the_standard_library() {
    for n in 0u32..0x11_0000 {
        if let Some(c) = char::from_u32(n) {
            assert_eq!(is_white_space(c), c.is_whitespace());
        }
    }
}

#[test]
fn trimming_agrees_with_the_standard_library() {
    for text in SAMPLES {
        assert_eq!(string_of(&trimmed(&chars_of(text))), text.trim());
        assert_eq!(is_blank(&chars_of(text)), text.trim().is_empty());
    }
}

#[test]
fn words_agree_with_the_standard_library() {
    for text in SAMPLES {
        let found: Vec<String> = split_words(&chars_of(text)).iter().map(string_of).collect();
        let expected: Vec<&str> = text.split_whitespace().collect();
        assert_eq!(found, expected);
    }
}

#[test]
fn replacing_agrees_with_the_standard_library() {
    for text in SAMPLES {
        assert_eq!(
            string_of(&with_char_replaced(&chars_of(text), '\u{2581}', ' ')),
            text.replace('\u{2581}', " ")
        );
        assert_eq!(
            string_of(&without(&chars_of(text), &chars_of("[EOU]"))),
            text.replace("[EOU]", "")
        );
        assert_eq!(
            string_of(&lowercased(&chars_of(text))),
            text.to_ascii_lowercase()
        );
    }
}

#[test]
fn removal_does_not_look_back() {
    assert_eq!(string_of(&without(&chars_of("aab"), &chars_of("ab"))), "a");
    assert_eq!(string_of(&without(&chars_of("aaa"), &chars_of("aa"))), "a");
    assert_eq!(string_of(&without(&chars_of("[EO[EOU]U]"), &chars_of("[EOU]"))), "[EOU]");
}

#[test]
fn decimals_agree_with_the_standard_library() {
    for n in [0usize, 7, 9, 10, 99, 100, 4096, 8192, 48_000, usize::MAX] {
        assert_eq!(decimal_of(n), n.to_string());
    }
}

#[test]
fn equality_of_text() {
    assert!(same_text("whisper", "whisper"));
    assert!(!same_text("whisper", "Whisper"));
    assert!(!same_text("whisper", "whispers"));
    assert!(same_text("", ""));
}
