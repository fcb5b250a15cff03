use app_catalog::text::{parse_integer, push_decimal, push_decimal_digits, to_chars, trim_bounds};

fn written(n: i64) -> String {
    let mut out = String::new();
    push_decimal(&mut out, n);
    out
}

fn read(text: &str, min: i64, max: i64) -> Option<i64> {
    let chars = to_chars(text);
    parse_integer(&chars, 0, chars.len(), min, max)
}

fn trimmed(text: &str) -> String {
    let chars = to_chars(text);
    let (lo, hi) = trim_bounds(&chars);
    chars[lo..hi].iter().collect()
}

#[test]
fn decimal_of_small_numbers() {
    assert_eq!(written(0), "0");
    assert_eq!(written(7), "7");
    assert_eq!(written(10), "10");
    assert_eq!(written(100), "100");
    assert_eq!(written(12345), "12345");
}

#[test]
fn decimal_of_negative_numbers() {
    assert_eq!(written(-1), "-1");
    assert_eq!(written(-10), "-10");
    assert_eq!(written(-9870), "-9870");
}

#[test]
fn decimal_of_the_extremes() {
    assert_eq!(written(i64::MAX), "9223372036854775807");
    assert_eq!(written(i64::MIN), "-9223372036854775808");
}

#[test]
fn decimal_agrees_with_display() {
    let mut n: i64 = 1;
    for _ in 0..18 {
        assert_eq!(written(n), format!("{}", n));
        assert_eq!(written(-n), format!("{}", -n));
        assert_eq!(written(n - 1), format!("{}", n - 1));
        n *= 10;
    }
}

#[test]
fn decimal_is_appended_to_what_is_there() {
    let mut out = String::from("limit=");
    push_decimal(&mut out, 25);
    assert_eq!(out, "limit=25");
    push_decimal_digits(&mut out, 18446744073709551615);
    assert_eq!(out, "limit=2518446744073709551615");
}

#[test]
fn characters_of_a_text() {
    assert_eq!(to_chars(""), Vec::<char>::new());
    assert_eq!(to_chars("a\u{e9}\u{4e2d}"), vec!['a', '\u{e9}', '\u{4e2d}']);
}

#[test]
fn trim_removes_white_space_at_both_ends() {
    assert_eq!(trimmed("  8080 \n"), "8080");
    assert_eq!(trimmed("\t\r\n a b \u{a0}\u{3000}"), "a b");
    assert_eq!(trimmed("x"), "x");
}

#[test]
fn trim_of_white_space_alone_is_empty() {
    assert_eq!(trimmed(""), "");
    assert_eq!(trimmed(" \t\u{2003}\u{2028}"), "");
}

#[test]
fn trim_agrees_with_std() {
    let samples = [
        "", " ", "a", " a", "a ", "  a  b  ", "\u{85}x\u{85}", "\u{1680}y\u{205f}",
        "\u{2000}\u{200a}z\u{2029}\u{202f}", "\u{200b}w\u{200b}", "\u{b}\u{c}v\u{9}\u{d}",
        "\u{1c}u\u{1f}", "\u{feff}t",
    ];
    for sample in samples {
        assert_eq!(trimmed(sample), sample.trim());
    }
}

#[test]
fn parse_reads_plain_numerals() {
    assert_eq!(read("0", 0, 65535), Some(0));
    assert_eq!(read("80", 0, 65535), Some(80));
    assert_eq!(read("65535", 0, 65535), Some(65535));
    assert_eq!(read("007", 0, 65535), Some(7));
    assert_eq!(read("+443", 0, 65535), Some(443));
}

#[test]
fn parse_refuses_what_is_no_numeral() {
    assert_eq!(read("", 0, 65535), None);
    assert_eq!(read("+", 0, 65535), None);
    assert_eq!(read("-", i64::MIN, i64::MAX), None);
    assert_eq!(read("12a", 0, 65535), None);
    assert_eq!(read("a12", 0, 65535), None);
    assert_eq!(read(" 12", 0, 65535), None);
    assert_eq!(read("1 2", 0, 65535), None);
    assert_eq!(read("++1", 0, 65535), None);
    assert_eq!(read("\u{661}", 0, 65535), None);
}

#[test]
fn parse_refuses_a_number_out_of_bounds() {
    assert_eq!(read("65536", 0, 65535), None);
    assert_eq!(read("99999999999999999999999999", 0, 65535), None);
    assert_eq!(read("9223372036854775808", i64::MIN, i64::MAX), None);
    assert_eq!(read("-9223372036854775809", i64::MIN, i64::MAX), None);
}

#[test]
fn parse_takes_a_minus_only_where_negatives_are_allowed() {
    assert_eq!(read("-1", 0, 65535), None);
    assert_eq!(read("-0", 0, 65535), None);
    assert_eq!(read("-0", i64::MIN, i64::MAX), Some(0));
    assert_eq!(read("-15", i64::MIN, i64::MAX), Some(-15));
}

#[test]
fn parse_reads_the_extremes() {
    assert_eq!(read("9223372036854775807", i64::MIN, i64::MAX), Some(i64::MAX));
    assert_eq!(read("-9223372036854775808", i64::MIN, i64::MAX), Some(i64::MIN));
}

#[test]
fn parse_agrees_with_std() {
    let samples = [
        "", "0", "1", "-1", "+1", "+-1", "-+1", "00", "-00", "65535", "65536", "-65536", "1e3",
        "0x10", "1_000", "9223372036854775807", "9223372036854775808", "-9223372036854775808",
        "-9223372036854775809", "\u{661}\u{662}\u{663}", "12 ", "\u{663}",
    ];
    for sample in samples {
        assert_eq!(read(sample, 0, 65535), sample.parse::<u16>().ok().map(i64::from));
        assert_eq!(read(sample, i64::MIN, i64::MAX), sample.parse::<i64>().ok());
    }
}

#[test]
fn parse_reads_a_part_of_the_characters() {
    let chars = to_chars("ab123cd");
    assert_eq!(parse_integer(&chars, 2, 5, 0, 1000), Some(123));
    assert_eq!(parse_integer(&chars, 2, 2, 0, 1000), None);
    assert_eq!(parse_integer(&chars, 1, 5, 0, 1000), None);
}

#[test]
fn reading_undoes_writing() {
    for n in [0i64, 1, 9, 10, 99, 100, 65535, -1, -10, -65536, i64::MAX, i64::MIN] {
        assert_eq!(read(&written(n), i64::MIN, i64::MAX), Some(n));
    }
    for n in [0i64, 80, 8080, 65535] {
        assert_eq!(read(&written(n), 0, 65535), Some(n));
    }
}
