use backlog_slack_notifier::text::{contains_literal, u32_to_decimal};

#[test]
fn numbers_are_written_in_decimal() {
    assert_eq!(u32_to_decimal(0), "0");
    assert_eq!(u32_to_decimal(7), "7");
    assert_eq!(u32_to_decimal(9), "9");
    assert_eq!(u32_to_decimal(10), "10");
    assert_eq!(u32_to_decimal(42), "42");
    assert_eq!(u32_to_decimal(100), "100");
    assert_eq!(u32_to_decimal(1234567890), "1234567890");
    assert_eq!(u32_to_decimal(u32::MAX), "4294967295");
}

#[test]
fn decimal_agrees_with_the_standard_formatting() {
    let mut n: u32 = 1;
    for _ in 0..40 {
        assert_eq!(u32_to_decimal(n), n.to_string());
        assert_eq!(u32_to_decimal(n - 1), (n - 1).to_string());
        n = n.wrapping_mul(7).wrapping_add(3);
        if n == 0 {
            n = 1;
        }
    }
}

#[test]
fn a_literal_is_found_where_it_stands() {
    assert!(contains_literal("hello @Test1!", "@Test1"));
    assert!(contains_literal("hello @Test1!", "hello"));
    assert!(contains_literal("hello @Test1!", "!"));
    assert!(contains_literal("hello @Test1!", "hello @Test1!"));
    assert!(!contains_literal("hello @Test1!", "@Test2"));
    assert!(!contains_literal("hello @Test1!", "hello @Test1!!"));
    assert!(!contains_literal("hello", "Hello"));
}

#[test]
fn the_empty_literal_stands_in_every_text() {
    assert!(contains_literal("", ""));
    assert!(contains_literal("abc", ""));
    assert!(!contains_literal("", "a"));
}

#[test]
fn a_literal_is_found_after_a_false_start() {
    assert!(contains_literal("aaab", "aab"));
    assert!(contains_literal("abababc", "ababc"));
    assert!(!contains_literal("ababab", "ababc"));
}

#[test]
fn a_literal_is_compared_character_by_character() {
    assert!(contains_literal("確認 @田中 さん", "@田中"));
    assert!(!contains_literal("確認 @田 中 さん", "@田中"));
    assert!(contains_literal("a.b", "."));
    assert!(!contains_literal("axb", "."));
}

#[test]
fn literal_search_agrees_with_the_standard_search() {
    let texts = ["", "a", "ab", "aab", "abab", "@Test1", "hello @Test1!", "田中さん"];
    for text in texts {
        for needle in texts {
            assert_eq!(contains_literal(text, needle), text.contains(needle));
        }
    }
}
