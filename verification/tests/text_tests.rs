use raflow::text::{
    common_prefix_char_count, contains_cjk, contains_substring, is_cjk,
    is_join_boundary_punctuation, last_non_whitespace, str_eq, strip_prefix_chars,
    suffix_from_char_index, trim_of,
};
use raflow::util::{now_epoch_ms, u64_to_decimal};

#[test]
fn cjk_classification_matches_the_ranges() {
    assert!(is_cjk('你'));
    assert!(is_cjk('。'));
    assert!(!is_cjk('a'));
    assert!(!is_cjk('é'));
    assert!(contains_cjk("abc好def"));
    assert!(!contains_cjk("plain latin"));
}

#[test]
fn join_punctuation_covers_both_scripts() {
    for ch in ['.', ',', '!', '?', ';', ':', '，', '。', '！', '？', '；', '：', '、'] {
        assert!(is_join_boundary_punctuation(ch));
    }
    assert!(!is_join_boundary_punctuation('a'));
    assert!(!is_join_boundary_punctuation('-'));
}

#[test]
fn trim_matches_unicode_whitespace() {
    assert_eq!(trim_of("  hello \t"), "hello");
    assert_eq!(trim_of("\u{3000}你好\u{3000}"), "你好");
    assert_eq!(trim_of("   "), "");
}

#[test]
fn string_helpers_work_on_char_boundaries() {
    assert!(str_eq("héllo", "héllo"));
    assert!(!str_eq("héllo", "hello"));
    assert_eq!(common_prefix_char_count("你好世界", "你好朋友"), 2);
    assert_eq!(suffix_from_char_index("你好世界", 2), "世界");
    assert_eq!(suffix_from_char_index("abc", 7), "");
    assert_eq!(strip_prefix_chars("hello world", "hello "), Some("world".to_string()));
    assert_eq!(strip_prefix_chars("hello", "help"), None);
    assert_eq!(last_non_whitespace("ab  "), Some('b'));
    assert_eq!(last_non_whitespace("   "), None);
    assert!(contains_substring("no matching entry found", "matching entry"));
    assert!(!contains_substring("short", "much longer needle"));
}

#[test]
fn decimal_rendering_is_exact() {
    assert_eq!(u64_to_decimal(0), "0");
    assert_eq!(u64_to_decimal(907), "907");
    assert_eq!(u64_to_decimal(u64::MAX), "18446744073709551615");
}

#[test]
fn clock_reads_a_modern_epoch() {
    // the wrapper promises nothing; this only checks it runs and is sane
    let now = now_epoch_ms();
    assert!(now > 1_000_000_000_000);
}
