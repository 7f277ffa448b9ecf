use netgame::text::{is_blank, parse_bounded, parse_u32_line, parse_usize_line, to_decimal, trim_str};

#[test]
fn decimal_of_small_and_large_numbers() {
    assert_eq!(to_decimal(0), "0");
    assert_eq!(to_decimal(7), "7");
    assert_eq!(to_decimal(10), "10");
    assert_eq!(to_decimal(2525), "2525");
    assert_eq!(to_decimal(usize::MAX), usize::MAX.to_string());
}

#[test]
fn trim_removes_surrounding_white_space_only() {
    assert_eq!(trim_str("  4\n"), "4");
    assert_eq!(trim_str("\t a b \r\n"), "a b");
    assert_eq!(trim_str(""), "");
    assert_eq!(trim_str(" \n\t "), "");
    assert_eq!(trim_str("\u{3000}x\u{85}"), "x");
    assert_eq!(trim_str("\u{200B}x"), "\u{200B}x");
}

#[test]
fn trim_agrees_with_std() {
    for s in ["", " ", "abc", "  abc  ", "\u{a0}q\u{2028}", "a\tb", "\u{1680}\u{2000}z\u{205f}"] {
        assert_eq!(trim_str(s), s.trim());
    }
}

#[test]
fn trim_is_idempotent_on_examples() {
    for s in ["  x  ", "\n\n", "y", " \u{2003}z\u{3000} "] {
        assert_eq!(trim_str(trim_str(s)), trim_str(s));
    }
}

#[test]
fn blank_lines() {
    assert!(is_blank(""));
    assert!(is_blank(" \n"));
    assert!(!is_blank(" a \n"));
}

#[test]
fn parse_accepts_digits_and_one_plus() {
    assert_eq!(parse_bounded("42", usize::MAX), Some(42));
    assert_eq!(parse_bounded("+42", usize::MAX), Some(42));
    assert_eq!(parse_bounded("007", usize::MAX), Some(7));
    assert_eq!(parse_bounded("0", 0), Some(0));
}

#[test]
fn parse_rejects_what_std_rejects() {
    for s in ["", "+", "++1", "-1", "1a", " 1", "4.0", "x"] {
        assert_eq!(parse_bounded(s, usize::MAX), None, "{:?}", s);
        assert!(s.parse::<usize>().is_err());
    }
}

#[test]
fn parse_respects_the_bound() {
    assert_eq!(parse_bounded("255", 255), Some(255));
    assert_eq!(parse_bounded("256", 255), None);
    assert_eq!(parse_bounded("4294967295", 4294967295), Some(4294967295));
    assert_eq!(parse_bounded("4294967296", 4294967295), None);
    assert_eq!(parse_bounded("99999999999999999999999999", usize::MAX), None);
}

#[test]
fn parse_lines_match_std() {
    for s in ["4\n", " 8 ", "9", "+3\r\n", "abc\n", "", "18446744073709551616", "4294967296\n"] {
        assert_eq!(parse_usize_line(s), s.trim().parse::<usize>().ok(), "{:?}", s);
        assert_eq!(parse_u32_line(s), s.trim().parse::<u32>().ok(), "{:?}", s);
    }
}

#[test]
fn rendered_numbers_parse_back() {
    for n in [0usize, 1, 9, 10, 99, 100, 12345, usize::MAX] {
        assert_eq!(parse_bounded(&to_decimal(n), usize::MAX), Some(n));
    }
}
