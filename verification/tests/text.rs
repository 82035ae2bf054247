use word_condenser::text::{contains, contains_char, decimal, same_text};

#[test]
fn decimal_writes_numbers() {
    assert_eq!(decimal(0), "0");
    assert_eq!(decimal(9), "9");
    assert_eq!(decimal(10), "10");
    assert_eq!(decimal(65535), "65535");
    assert_eq!(decimal(1_700_000_000_123), "1700000000123");
    assert_eq!(decimal(u128::MAX), "340282366920938463463374607431768211455");
}

#[test]
fn decimal_reads_back() {
    for n in [0u128, 1, 19, 20, 100, 4096, 99_999, 123_456_789_012] {
        assert_eq!(decimal(n).parse::<u128>(), Ok(n));
    }
}

#[test]
fn contains_finds_parts() {
    assert!(contains("abc", ""));
    assert!(contains("", ""));
    assert!(contains("abc", "abc"));
    assert!(contains("abc", "bc"));
    assert!(contains("aab", "ab"));
    assert!(!contains("abc", "ac"));
    assert!(!contains("ab", "abc"));
    assert!(contains("größe: 5 µm", "5 µ"));
}

#[test]
fn contains_char_finds_characters() {
    assert!(contains_char("a/b", '/'));
    assert!(!contains_char("ab", '/'));
    assert!(!contains_char("", '/'));
    assert!(contains_char("aé", 'é'));
}

#[test]
fn same_text_compares() {
    assert!(same_text("main", "main"));
    assert!(!same_text("main", "Main"));
    assert!(!same_text("main", "main "));
}
