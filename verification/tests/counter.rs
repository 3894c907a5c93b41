use testrepository_repository::counter::{parse_counter, whitespace};
use testrepository_repository::text::{chars_of, same_text};

#[test]
fn counts_are_decimal_numbers() {
    assert_eq!(parse_counter("0\n"), Some(0));
    assert_eq!(parse_counter("0"), Some(0));
    assert_eq!(parse_counter("7\n"), Some(7));
    assert_eq!(parse_counter("42\n"), Some(42));
    assert_eq!(parse_counter("007"), Some(7));
    assert_eq!(parse_counter("1234567890"), Some(1234567890));
}

#[test]
fn white_space_around_a_count_is_skipped() {
    assert_eq!(parse_counter("  12  "), Some(12));
    assert_eq!(parse_counter("\t12\r\n"), Some(12));
    assert_eq!(parse_counter("\n\n3\n\n"), Some(3));
    assert_eq!(parse_counter("\u{a0}5\u{2003}"), Some(5));
    assert_eq!(parse_counter("\u{3000}9\u{85}"), Some(9));
    assert_eq!(parse_counter("\u{1680}\u{2028}\u{2029}\u{202f}\u{205f}4"), Some(4));
}

#[test]
fn a_plus_sign_may_lead() {
    assert_eq!(parse_counter("+5"), Some(5));
    assert_eq!(parse_counter(" +5\n"), Some(5));
    assert_eq!(parse_counter("+"), None);
    assert_eq!(parse_counter("++5"), None);
    assert_eq!(parse_counter("5+"), None);
    assert_eq!(parse_counter("+ 5"), None);
}

#[test]
fn what_is_no_count_is_refused() {
    assert_eq!(parse_counter(""), None);
    assert_eq!(parse_counter("\n"), None);
    assert_eq!(parse_counter("   "), None);
    assert_eq!(parse_counter("-1"), None);
    assert_eq!(parse_counter("-0"), None);
    assert_eq!(parse_counter("1 2"), None);
    assert_eq!(parse_counter("12a"), None);
    assert_eq!(parse_counter("a12"), None);
    assert_eq!(parse_counter("1_000"), None);
    assert_eq!(parse_counter("0x10"), None);
    assert_eq!(parse_counter("1.0"), None);
    assert_eq!(parse_counter("\u{ff15}"), None);
    assert_eq!(parse_counter("\u{200b}5"), None);
    assert_eq!(parse_counter("5\u{0}"), None);
}

#[test]
fn a_count_has_to_fit() {
    let max = usize::MAX.to_string();
    assert_eq!(parse_counter(&max), Some(usize::MAX));
    assert_eq!(parse_counter(&format!("{}\n", max)), Some(usize::MAX));
    assert_eq!(parse_counter(&format!("000{}", max)), Some(usize::MAX));
    let mut over = max.clone();
    let last = over.pop().unwrap();
    over.push(char::from_u32(last as u32 + 1).unwrap());
    assert_eq!(parse_counter(&over), None);
    assert_eq!(parse_counter(&format!("{}0", max)), None);
    assert_eq!(parse_counter("99999999999999999999999999999999999999999999"), None);
    assert_eq!(parse_counter("99999999999999999999999999999999999999999999x"), None);
}

#[test]
fn counts_are_read_as_the_standard_library_reads_them() {
    let samples = [
        "", "0", "0\n", "1", "+1", "-1", " 1", "1 ", "\t1\t", "01", "1\n2", "a", "1a", "+", "+-1",
        "\u{a0}1", "\u{2000}1\u{200a}", "\u{feff}1", "18446744073709551615", "18446744073709551616",
        "4294967295", "4294967296", "\u{b}\u{c}8", "٣", "1,000", "１", " \n ", "+0", "0 0",
    ];
    for sample in samples {
        assert_eq!(parse_counter(sample), sample.trim().parse::<usize>().ok(), "{:?}", sample);
    }
}

#[test]
fn white_space_is_what_unicode_says() {
    for code in 0u32..=0x3100 {
        if let Some(c) = char::from_u32(code) {
            assert_eq!(whitespace(c), c.is_whitespace(), "U+{:04X}", code);
        }
    }
    assert!(!whitespace('\u{10ffff}'));
    assert!(!whitespace('\u{feff}'));
}

#[test]
fn texts_are_compared_by_their_characters() {
    assert!(same_text("", ""));
    assert!(same_text("file", "file"));
    assert!(!same_text("file", "fil"));
    assert!(!same_text("file", "File"));
    assert!(!same_text("file", "memory"));
    assert!(same_text("caf\u{e9}", "caf\u{e9}"));
    assert!(!same_text("caf\u{e9}", "cafe\u{301}"));
}

#[test]
fn characters_of_a_text() {
    assert_eq!(chars_of(""), Vec::<char>::new());
    assert_eq!(chars_of("a\u{e9}\u{1f600}"), vec!['a', '\u{e9}', '\u{1f600}']);
}
