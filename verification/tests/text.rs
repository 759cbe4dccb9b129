use sayable::text::{
    collapse_white_space, integer_text, is_numeric_text, is_white_space_char, natural_string,
    text_eq, trim,
};

#[test]
fn white_space_is_what_unicode_says() {
    let mut count = 0;
    for code in 0..=0x10FFFFu32 {
        if let Some(c) = char::from_u32(code) {
            assert_eq!(is_white_space_char(c), c.is_whitespace(), "{code:#x}");
            if is_white_space_char(c) {
                count += 1;
            }
        }
    }
    assert_eq!(count, 25);
}

#[test]
fn trim_removes_white_space_at_both_ends() {
    assert_eq!(trim("  a b  "), "a b");
    assert_eq!(trim("\n\t\u{a0}a\u{2028}"), "a");
    assert_eq!(trim(""), "");
    assert_eq!(trim(" \u{3000} "), "");
    assert_eq!(trim("a"), "a");
    assert_eq!(trim("\u{e9} "), "\u{e9}");
    for sample in [" x ", "\r\n", "a  b", "\u{85}q\u{1680}", "\u{200b} \u{feff}"] {
        assert_eq!(trim(sample), sample.trim());
    }
}

#[test]
fn runs_of_white_space_become_one_space() {
    assert_eq!(collapse_white_space("a  b"), "a b");
    assert_eq!(collapse_white_space("\n  Hello,\t world \n"), " Hello, world ");
    assert_eq!(collapse_white_space(""), "");
    assert_eq!(collapse_white_space("\u{2003}"), " ");
    assert_eq!(collapse_white_space("a\u{a0}\u{3000}\r\nb"), "a b");
    assert_eq!(collapse_white_space("a b c"), "a b c");
    assert_eq!(collapse_white_space("\u{e9}\t\u{e9}"), "\u{e9} \u{e9}");
    assert_eq!(collapse_white_space("$1\t$0"), "$1 $0");
}

#[test]
fn texts_are_compared_character_by_character() {
    assert!(text_eq("say", "say"));
    assert!(!text_eq("say", "Say"));
    assert!(!text_eq("say", "sa"));
    assert!(text_eq("", ""));
}

#[test]
fn numeric_text_is_what_parses_as_a_float() {
    let samples = [
        "0", "1", "42", "007", "-1", "+1", "1.", ".1", "1.5", "-.5", "+5.", "1e5", "1E5", "1e+5",
        "1e-5", "1.5e10", ".5e1", "5.e1", "inf", "INF", "-inf", "+Infinity", "infinity", "nan",
        "NaN", "-nan", "", "+", "-", ".", "e", "e5", "1e", "1e+", "1e5.", "1.5.5", "--1", "+-1",
        "1 ", " 1", "1_0", "0x1", "infinit", "infinityy", "na", "nann", "in", "1f", "1d",
        "\u{661}", "1\u{e9}", "i\u{307}nf", "\u{212a}",
    ];
    for sample in samples {
        assert_eq!(is_numeric_text(sample), sample.parse::<f64>().is_ok(), "{sample:?}");
    }
}

#[test]
fn integers_are_written_without_plus_and_leading_zeros() {
    assert_eq!(integer_text("0"), Some("0".to_string()));
    assert_eq!(integer_text("+7"), Some("7".to_string()));
    assert_eq!(integer_text("-7"), Some("-7".to_string()));
    assert_eq!(integer_text("-0"), Some("0".to_string()));
    assert_eq!(integer_text("0042"), Some("42".to_string()));
    assert_eq!(integer_text("-0042"), Some("-42".to_string()));
    assert_eq!(integer_text("100"), Some("100".to_string()));
    assert_eq!(
        integer_text("340282366920938463463374607431768211456"),
        Some("340282366920938463463374607431768211456".to_string())
    );
    for text in ["", "+", "-", "1.0", "1e3", " 1", "1 ", "a", "0x1", "1_000", "\u{661}"] {
        assert_eq!(integer_text(text), None, "{text:?}");
    }
    for number in [-2147483648i64, -1001, -10, -1, 0, 1, 9, 10, 99, 100, 2147483647, 4294967296] {
        assert_eq!(integer_text(&number.to_string()), Some(number.to_string()));
        assert_eq!(integer_text(&format!("{number:+}")), Some(number.to_string()));
    }
}

#[test]
fn naturals_are_written_in_decimal() {
    for number in [0u64, 1, 9, 10, 11, 99, 100, 101, 12345, u64::MAX] {
        assert_eq!(natural_string(number), number.to_string());
    }
}
