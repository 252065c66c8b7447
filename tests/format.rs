use polymer::highlight::{classify, TokenKind};
use polymer::wrap::wrap_text;

fn owned(v: &[&str]) -> Vec<String> {
    v.iter().map(|s| s.to_string()).collect()
}

#[test]
fn wrap_text_empty() {
    assert!(wrap_text("", 10).is_empty());
    assert!(wrap_text("   \t ", 10).is_empty());
}

#[test]
fn wrap_text_greedy_lines() {
    assert_eq!(wrap_text("hello world foo", 11), owned(&["hello world", "foo"]));
    assert_eq!(wrap_text("a  b\tc\n", 80), owned(&["a b c"]));
    assert_eq!(wrap_text("abcd", 4), owned(&["abcd"]));
}

#[test]
fn wrap_text_cuts_long_words() {
    assert_eq!(wrap_text("abcdefghij xy", 4), owned(&["abcd", "efgh", "ij", "xy"]));
    assert_eq!(wrap_text("abcdefgh", 4), owned(&["abcd", "efgh"]));
    assert_eq!(wrap_text("x abcdefghi", 3), owned(&["x", "abc", "def", "ghi"]));
}

#[test]
fn classify_keywords_by_meaning() {
    assert_eq!(classify(1, "ERROR"), TokenKind::Failure);
    assert_eq!(classify(1, "Failed"), TokenKind::Failure);
    assert_eq!(classify(1, "Warning"), TokenKind::Warning);
    assert_eq!(classify(1, "Success"), TokenKind::Success);
    assert_eq!(classify(1, "succeeded"), TokenKind::Keyword);
    assert_eq!(classify(1, "READY"), TokenKind::Success);
    assert_eq!(classify(1, "info"), TokenKind::Keyword);
}

#[test]
fn classify_status_codes_and_groups() {
    assert_eq!(classify(8, "503"), TokenKind::ServerError);
    assert_eq!(classify(8, "404"), TokenKind::ClientError);
    assert_eq!(classify(8, "200"), TokenKind::StatusOk);
    assert_eq!(classify(2, "10.0.0.1"), TokenKind::Address);
    assert_eq!(classify(3, "12:00:01"), TokenKind::Clock);
    assert_eq!(classify(6, "GET"), TokenKind::Method);
    assert_eq!(classify(9, "20ms"), TokenKind::Duration);
    assert_eq!(classify(10, "5 MB"), TokenKind::Size);
    assert_eq!(classify(11, "src/main.rs"), TokenKind::Path);
    assert_eq!(classify(12, "abc1234"), TokenKind::Hash);
    assert_eq!(classify(0, "x"), TokenKind::Plain);
}

#[test]
fn wrap_text_unicode_spaces() {
    assert_eq!(wrap_text("a\u{3000}b\u{a0}c\u{2009}d", 80), owned(&["a b c d"]));
}
