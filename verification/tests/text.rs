use poor_jimmy::utils::text::{parse_u32, render_decimal, same_text};

#[test]
fn render_decimal_writes_numerals() {
    assert_eq!(render_decimal(0), "0");
    assert_eq!(render_decimal(7), "7");
    assert_eq!(render_decimal(10), "10");
    assert_eq!(render_decimal(1234567890), "1234567890");
    assert_eq!(render_decimal(u64::MAX), u64::MAX.to_string());
}

#[test]
fn parse_u32_agrees_with_the_standard_parser() {
    let samples = [
        "0", "1", "15", "0015", "+7", "+0", "4294967295", "4294967296", "42949672950", "", "+", "-", "-0",
        "++1", "1+", "a", "1a", "0x10", " 1", "1 ", "1.0", "１２", "٣",
    ];
    for s in samples {
        assert_eq!(parse_u32(s), s.parse::<u32>().ok(), "{:?}", s);
    }
}

#[test]
fn parse_u32_reads_exact_values() {
    assert_eq!(parse_u32("15"), Some(15));
    assert_eq!(parse_u32("+15"), Some(15));
    assert_eq!(parse_u32("4294967295"), Some(4294967295));
    assert_eq!(parse_u32("4294967296"), None);
}

#[test]
fn same_text_compares_character_by_character() {
    assert!(same_text("play", "play"));
    assert!(!same_text("play", "Play"));
    assert!(!same_text("play", "play "));
    assert!(same_text("", ""));
}
