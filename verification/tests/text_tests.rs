use wasmbl::text::{
    contains, decimal_text, matches_at, replace_char, same_text, signed_decimal_text, starts_with,
};

#[test]
fn starts_with_accepts_prefixes_only() {
    assert!(starts_with("CARGO_CFG_UNIX", "CARGO_CFG_"));
    assert!(starts_with("abc", ""));
    assert!(starts_with("abc", "abc"));
    assert!(!starts_with("ab", "abc"));
    assert!(!starts_with("xabc", "abc"));
}

#[test]
fn contains_finds_a_text_anywhere() {
    assert!(contains("Error: Directory not empty (os error 39)", "Directory not empty"));
    assert!(contains("abc", ""));
    assert!(contains("", ""));
    assert!(contains("abc", "c"));
    assert!(contains("aab", "ab"));
    assert!(!contains("abc", "abd"));
    assert!(!contains("", "a"));
    assert!(!contains("ab", "abc"));
}

#[test]
fn contains_counts_characters_not_bytes() {
    assert!(contains("préface", "face"));
    assert!(contains("日本語のテキスト", "テキスト"));
    assert!(!contains("日本語", "本日"));
}

#[test]
fn replace_char_turns_every_occurrence() {
    assert_eq!(replace_char("my-frontend-unit", '-', "_"), "my_frontend_unit");
    assert_eq!(replace_char("plain", '-', "_"), "plain");
    assert_eq!(replace_char("", '-', "_"), "");
    assert_eq!(replace_char("--", '-', "_"), "__");
    assert_eq!(replace_char("a-b", '-', ""), "ab");
    assert_eq!(replace_char("a-b", '-', "::"), "a::b");
}

#[test]
fn decimal_text_writes_numerals() {
    assert_eq!(decimal_text(0), "0");
    assert_eq!(decimal_text(7), "7");
    assert_eq!(decimal_text(10), "10");
    assert_eq!(decimal_text(3000), "3000");
    assert_eq!(decimal_text(u64::MAX), "18446744073709551615");
}

#[test]
fn signed_decimal_text_writes_the_sign() {
    assert_eq!(signed_decimal_text(0), "0");
    assert_eq!(signed_decimal_text(101), "101");
    assert_eq!(signed_decimal_text(-1), "-1");
    assert_eq!(signed_decimal_text(i64::MIN), "-9223372036854775808");
    assert_eq!(signed_decimal_text(i64::MAX), "9223372036854775807");
}

#[test]
fn same_text_compares_whole_texts() {
    assert!(same_text("serve", "serve"));
    assert!(same_text("", ""));
    assert!(!same_text("serve", "server"));
    assert!(!same_text("serve", "Serve"));
}

#[test]
fn matches_at_looks_at_one_position() {
    assert!(matches_at("abcabc", "bc", 1));
    assert!(matches_at("abcabc", "bc", 4));
    assert!(!matches_at("abcabc", "bc", 2));
    assert!(!matches_at("abcabc", "bc", 5));
    assert!(!matches_at("abc", "bc", usize::MAX));
    assert!(matches_at("abc", "", 3));
    assert!(!matches_at("abc", "", 4));
}
