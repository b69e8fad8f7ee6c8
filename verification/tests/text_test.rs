use account_model::text::byte_count;
use account_model::text::decimal;
use account_model::text::same_text;

#[test]
fn same_text_compares_every_character() {
    assert!(same_text("", ""));
    assert!(same_text("GBDSC", "GBDSC"));
    assert!(same_text("caf\u{e9}", "caf\u{e9}"));
    assert!(!same_text("GBDSC", "GBDSD"));
    assert!(!same_text("GBDSC", "gBDSC"));
    assert!(!same_text("GBDSC", "GBDS"));
    assert!(!same_text("", "G"));
    assert!(!same_text("caf\u{e9}", "cafe"));
}

#[test]
fn byte_count_counts_utf8_bytes() {
    assert_eq!(0, byte_count(""));
    assert_eq!(6, byte_count("400300"));
    assert_eq!(6, byte_count("4003\u{e9}"));
    assert_eq!(4, byte_count("\u{1f600}"));
}

#[test]
fn decimal_writes_no_leading_zeros() {
    assert_eq!("0", decimal(0));
    assert_eq!("6", decimal(6));
    assert_eq!("8", decimal(8));
    assert_eq!("9", decimal(9));
    assert_eq!("10", decimal(10));
    assert_eq!("42", decimal(42));
    assert_eq!("99", decimal(99));
    assert_eq!("100", decimal(100));
    assert_eq!("101", decimal(101));
    assert_eq!("110", decimal(110));
    assert_eq!("255", decimal(255));
}

#[test]
fn decimal_agrees_with_the_standard_rendering() {
    for number in 0..=255u8 {
        assert_eq!(number.to_string(), decimal(number));
    }
}
