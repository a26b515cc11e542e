use git_radar_rs::text::{
    char_is_whitespace, join, parse_count, push_decimal, strip_prefix, trim_end,
};

#[test]
fn white_space_is_what_the_standard_library_says() {
    for code in 0..=0x10ffffu32 {
        if let Some(c) = char::from_u32(code) {
            assert_eq!(char_is_whitespace(c), c.is_whitespace(), "U+{:04X}", code);
        }
    }
}

#[test]
fn trim_end_removes_trailing_white_space() {
    assert_eq!(trim_end("main\n"), "main");
    assert_eq!(trim_end("main \t\r\n\n"), "main");
    assert_eq!(trim_end("  two words  "), "  two words");
    assert_eq!(trim_end("\n"), "");
    assert_eq!(trim_end(""), "");
    assert_eq!(trim_end("main"), "main");
    assert_eq!(trim_end("a\u{a0}\u{3000}\u{2028}\u{85}"), "a");
    assert_eq!(trim_end("a\u{200b}"), "a\u{200b}");
    assert_eq!(trim_end("\u{e9}t\u{e9} \n"), "\u{e9}t\u{e9}");
}

#[test]
fn trim_end_agrees_with_the_standard_library() {
    for text in ["", " ", "a", "a b ", "\u{1680}x\u{1680}", "x\u{1c}", "x\u{205f}\u{202f}", "é\n"] {
        assert_eq!(trim_end(text), text.trim_end());
    }
}

#[test]
fn strip_prefix_removes_a_prefix_that_is_there() {
    assert_eq!(strip_prefix("refs/heads/main", "refs/heads/"), Some("main"));
    assert_eq!(strip_prefix("refs/heads/", "refs/heads/"), Some(""));
    assert_eq!(strip_prefix("main", ""), Some("main"));
    assert_eq!(strip_prefix("", ""), Some(""));
    assert_eq!(strip_prefix("\u{e9}t\u{e9}", "\u{e9}"), Some("t\u{e9}"));
}

#[test]
fn strip_prefix_refuses_a_prefix_that_is_not_there() {
    assert_eq!(strip_prefix("main", "refs/heads/"), None);
    assert_eq!(strip_prefix("refs/heads", "refs/heads/"), None);
    assert_eq!(strip_prefix("refs/tags/v1", "refs/heads/"), None);
    assert_eq!(strip_prefix("", "x"), None);
    assert_eq!(strip_prefix("xrefs/heads/main", "refs/heads/"), None);
}

#[test]
fn parse_count_reads_decimal_numbers() {
    assert_eq!(parse_count("0"), Some(0));
    assert_eq!(parse_count("7"), Some(7));
    assert_eq!(parse_count("42"), Some(42));
    assert_eq!(parse_count("007"), Some(7));
    assert_eq!(parse_count("+5"), Some(5));
    assert_eq!(parse_count("1234567890"), Some(1234567890));
    assert_eq!(parse_count(&usize::MAX.to_string()), Some(usize::MAX));
}

#[test]
fn parse_count_refuses_everything_else() {
    assert_eq!(parse_count(""), None);
    assert_eq!(parse_count("+"), None);
    assert_eq!(parse_count("-"), None);
    assert_eq!(parse_count("-1"), None);
    assert_eq!(parse_count("++1"), None);
    assert_eq!(parse_count("1+"), None);
    assert_eq!(parse_count(" 1"), None);
    assert_eq!(parse_count("1 "), None);
    assert_eq!(parse_count("1\n"), None);
    assert_eq!(parse_count("12a"), None);
    assert_eq!(parse_count("0x10"), None);
    assert_eq!(parse_count("\u{663}"), None);
    assert_eq!(parse_count("1.5"), None);
}

#[test]
fn parse_count_refuses_what_does_not_fit() {
    let max = usize::MAX.to_string();
    let mut digits: Vec<u8> = max.clone().into_bytes();
    let last = digits.len() - 1;
    assert!(digits[last] < b'9');
    digits[last] += 1;
    assert_eq!(parse_count(std::str::from_utf8(&digits).unwrap()), None);
    assert_eq!(parse_count(&format!("{}0", max)), None);
    assert_eq!(parse_count(&format!("0{}", max)), Some(usize::MAX));
    assert_eq!(parse_count("99999999999999999999999999999999999999999"), None);
}

#[test]
fn parse_count_agrees_with_the_standard_library() {
    for text in ["", "+", "-", "+0", "-0", "00", "+00012", "12", "1_000", "٣", "18446744073709551615",
        "18446744073709551616", "4294967295", "4294967296", "+-1", "１２"]
    {
        assert_eq!(parse_count(text), text.parse::<usize>().ok(), "{:?}", text);
    }
}

#[test]
fn push_decimal_appends_the_digits() {
    let mut out = String::from("n=");
    push_decimal(&mut out, 0);
    assert_eq!(out, "n=0");
    push_decimal(&mut out, 9);
    assert_eq!(out, "n=09");
    push_decimal(&mut out, 10);
    assert_eq!(out, "n=0910");
    push_decimal(&mut out, 1203);
    assert_eq!(out, "n=09101203");
}

#[test]
fn push_decimal_agrees_with_the_standard_library() {
    for n in [0usize, 1, 9, 10, 11, 99, 100, 101, 999, 1000, 65535, 4294967295, usize::MAX] {
        let mut out = String::new();
        push_decimal(&mut out, n);
        assert_eq!(out, n.to_string());
        assert_eq!(parse_count(&out), Some(n));
    }
}

#[test]
fn join_joins_two_texts() {
    assert_eq!(join("origin", "/main"), "origin/main");
    assert_eq!(join("", ""), "");
    assert_eq!(join("", "b"), "b");
    assert_eq!(join("a", ""), "a");
}
