use feed::number::{is_float, parse_unsigned, signed_text, unsigned_text};
use feed::text::{chars_of, same_text};

fn chars(s: &str) -> Vec<char> {
    s.chars().collect()
}

#[test]
fn unsigned_in_decimal() {
    assert_eq!(unsigned_text(0), "0");
    assert_eq!(unsigned_text(9), "9");
    assert_eq!(unsigned_text(10), "10");
    assert_eq!(unsigned_text(1000), "1000");
    assert_eq!(unsigned_text(1620000000000), "1620000000000");
    assert_eq!(unsigned_text(u64::MAX), "18446744073709551615");
}

#[test]
fn signed_in_decimal() {
    assert_eq!(signed_text(0), "0");
    assert_eq!(signed_text(7), "7");
    assert_eq!(signed_text(-7), "-7");
    assert_eq!(signed_text(-10), "-10");
    assert_eq!(signed_text(1620000000000), "1620000000000");
    assert_eq!(signed_text(i64::MAX), "9223372036854775807");
    assert_eq!(signed_text(i64::MIN), "-9223372036854775808");
}

#[test]
fn decimal_matches_the_standard_library() {
    for n in [0u64, 1, 9, 10, 11, 99, 100, 101, 12345, 4294967295, 4294967296, u64::MAX - 1] {
        assert_eq!(unsigned_text(n), n.to_string());
    }
    for v in [-1i64, -9, -10, -99, -100, -1620000000000, i64::MIN + 1, 42] {
        assert_eq!(signed_text(v), v.to_string());
    }
}

#[test]
fn plain_unsigned_numbers() {
    assert_eq!(parse_unsigned(&chars("0")), Some(0));
    assert_eq!(parse_unsigned(&chars("7")), Some(7));
    assert_eq!(parse_unsigned(&chars("42")), Some(42));
    assert_eq!(parse_unsigned(&chars("1620000000000")), Some(1620000000000));
    assert_eq!(parse_unsigned(&chars("18446744073709551615")), Some(u64::MAX));
    assert_eq!(parse_unsigned(&chars("18446744073709551616")), None);
    assert_eq!(parse_unsigned(&chars("18446744073709551620")), None);
    assert_eq!(parse_unsigned(&chars("28446744073709551615")), None);
    assert_eq!(parse_unsigned(&chars("184467440737095516150")), None);
    assert_eq!(parse_unsigned(&chars("")), None);
    assert_eq!(parse_unsigned(&chars("00")), None);
    assert_eq!(parse_unsigned(&chars("01")), None);
    assert_eq!(parse_unsigned(&chars("+1")), None);
    assert_eq!(parse_unsigned(&chars("-1")), None);
    assert_eq!(parse_unsigned(&chars("1.0")), None);
    assert_eq!(parse_unsigned(&chars("1e3")), None);
    assert_eq!(parse_unsigned(&chars("12a")), None);
    assert_eq!(parse_unsigned(&chars(" 1")), None);
    assert_eq!(parse_unsigned(&chars("\u{661}")), None);
}

#[test]
fn written_numbers_are_read_back() {
    for n in [0u64, 5, 10, 1000, 1620000000000, u64::MAX] {
        assert_eq!(parse_unsigned(&chars(&unsigned_text(n))), Some(n));
    }
}

#[test]
fn float_texts() {
    let accepted = [
        "0", "1", "100.0", "50000.5", "0.01", "1.", ".5", "+1", "-1", "+.5", "-5.", "1e5", "1E5",
        "1e+5", "1e-5", "1.5e10", ".5e1", "5.e1", "00012", "1e0005", "inf", "INF", "Inf", "+inf",
        "-inf", "infinity", "Infinity", "INFINITY", "-iNfInItY", "nan", "NaN", "NAN", "+nan",
        "-nan", "123456789012345678901234567890.123456789012345678901234567890",
        "1e99999999999999999999",
    ];
    for t in accepted {
        assert!(is_float(t), "{}", t);
        assert!(t.parse::<f64>().is_ok(), "{}", t);
    }
    let refused = [
        "", " ", "+", "-", ".", "+.", "-.", "e", "e5", ".e5", "1e", "1e+", "1e-", "1ee5", "1e5e5",
        "1.5.5", "1e5.5", "++1", "+-1", "1+", "1-1", " 1", "1 ", "1,5", "0x10", "1_000", "1f",
        "in", "infi", "infinit", "infinityy", "na", "nane", "n", "i", "+infx", "abc", "1a",
        "\u{661}", "1\u{a0}", "\u{ff11}", "ınf", "1e\u{661}", "--inf", "+ inf", "nan.", "inf1",
    ];
    for t in refused {
        assert!(!is_float(t), "{}", t);
        assert!(t.parse::<f64>().is_err(), "{}", t);
    }
}

#[test]
fn characters_and_equality() {
    assert_eq!(chars_of(""), Vec::<char>::new());
    assert_eq!(chars_of("a\u{e9}\u{20ac}z"), vec!['a', '\u{e9}', '\u{20ac}', 'z']);
    assert!(same_text("", ""));
    assert!(same_text("1h", "1h"));
    assert!(!same_text("1h", "1H"));
    assert!(!same_text("1h", "1"));
    assert!(!same_text("1", "1h"));
    assert!(!same_text("\u{e9}", "e"));
}
