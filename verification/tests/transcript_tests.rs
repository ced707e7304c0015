use raflow::transcript::{
    append_terminal_punctuation, contains_malicious_patterns, extract_terminal_punctuation_suffix,
    has_terminal_punctuation, normalize_transcript_text, resolve_committed_punctuation_delta,
    validate_transcript, InputError, ValidationError, MAX_TRANSCRIPT_LENGTH,
};

#[test]
fn validation_accepts_normal_text() {
    let result = validate_transcript("Hello world");
    assert!(result.is_ok());
}

#[test]
fn validation_rejects_overlong_text() {
    let input = "a".repeat(MAX_TRANSCRIPT_LENGTH + 1);
    let result = validate_transcript(&input);
    assert!(matches!(result, Err(ValidationError::TooLong)));
}

#[test]
fn validation_accepts_text_at_the_length_limit() {
    let input = "a".repeat(MAX_TRANSCRIPT_LENGTH);
    assert_eq!(validate_transcript(&input).expect("limit is inclusive"), input);
}

#[test]
fn validation_rejects_malicious_content() {
    let result = validate_transcript("hello && rm -rf /");
    assert!(matches!(result, Err(ValidationError::MaliciousContent)));
}

#[test]
fn validation_strips_control_characters() {
    let result = validate_transcript("he\u{0007}llo\tworld").expect("should pass");
    assert_eq!(result, "hello\tworld");
}

#[test]
fn malicious_scan_flags_each_token() {
    for bad in ["a`b", "a;b", "a|b", "a>b", "a<b", "a$(b", "a&&b"] {
        assert!(contains_malicious_patterns(bad), "expected {bad:?} to be flagged");
    }
    assert!(!contains_malicious_patterns("plain $ text & more"));
}

#[test]
fn append_punctuation_for_english_sentence() {
    assert_eq!(append_terminal_punctuation("hello world"), "hello world.");
}

#[test]
fn append_punctuation_for_chinese_sentence() {
    assert_eq!(append_terminal_punctuation("你好 世界"), "你好 世界，");
}

#[test]
fn keep_existing_terminal_punctuation() {
    assert_eq!(append_terminal_punctuation("done!"), "done!");
    assert_eq!(append_terminal_punctuation("好的，"), "好的，");
}

#[test]
fn normalize_traditional_chinese_to_simplified() {
    assert_eq!(normalize_transcript_text("後臺開發", "zho"), "后台开发");
}

#[test]
fn normalize_keeps_english_text() {
    assert_eq!(normalize_transcript_text("  hello  ", "eng"), "hello");
    assert_eq!(normalize_transcript_text("   ", "zho"), "");
}

#[test]
fn committed_delta_returns_punctuation_only() {
    assert_eq!(
        resolve_committed_punctuation_delta("hello world.", "hello world"),
        "."
    );
    assert_eq!(resolve_committed_punctuation_delta("你好，", "你好"), "，");
}

#[test]
fn committed_delta_ignores_non_punctuation_suffix() {
    assert_eq!(
        resolve_committed_punctuation_delta("hello world again", "hello world"),
        ""
    );
}

#[test]
fn committed_delta_takes_terminal_suffix_when_injected_unpunctuated() {
    assert_eq!(
        resolve_committed_punctuation_delta("something new.", "hello world"),
        "."
    );
    assert_eq!(
        resolve_committed_punctuation_delta("done!\")", "other text"),
        "!\")"
    );
}

#[test]
fn terminal_punctuation_sees_through_wrappers() {
    assert!(has_terminal_punctuation("done!\""));
    assert!(!has_terminal_punctuation("done\""));
    assert_eq!(extract_terminal_punctuation_suffix("he said \"stop!\""), "!\"");
    assert_eq!(extract_terminal_punctuation_suffix("no tail here"), "");
    assert_eq!(extract_terminal_punctuation_suffix(")]"), "");
    assert!(!has_terminal_punctuation(""));
}

#[test]
fn input_error_messages_match_their_variant() {
    let e = InputError::Clipboard("denied".to_string());
    assert_eq!(e.message(), "clipboard operation failed: denied");
    let v = InputError::Validation(ValidationError::TooLong);
    assert_eq!(
        v.message(),
        "invalid transcript: text exceeds maximum length of 10000 characters"
    );
    assert_eq!(
        ValidationError::MaliciousContent.message(),
        "text contains suspicious shell-like tokens"
    );
}
