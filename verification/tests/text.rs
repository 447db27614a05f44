use ce_integration::text::{
    decimal_text, joined, pad_right, parse_u64, quote_list, readable_text, same_bytes, short_id,
    trim_end_slashes,
};

#[test]
fn short_id_takes_ten_characters() {
    assert_eq!(short_id("0123456789abcdef"), "0123456789");
}

#[test]
fn short_id_keeps_a_short_one() {
    assert_eq!(short_id("abc"), "abc");
    assert_eq!(short_id("0123456789"), "0123456789");
    assert_eq!(short_id(""), "");
}

#[test]
fn short_id_counts_characters_not_bytes() {
    assert_eq!(short_id("äöüäöüäöüäöü"), "äöüäöüäöüä");
}

#[test]
fn decimal_texts() {
    assert_eq!(decimal_text(0), "0");
    assert_eq!(decimal_text(7), "7");
    assert_eq!(decimal_text(10), "10");
    assert_eq!(decimal_text(9080706054321), "9080706054321");
    assert_eq!(decimal_text(u64::MAX), "18446744073709551615");
}

#[test]
fn parsed_numbers_agree_with_std() {
    let cases = [
        "0", "45", "+7", "007", "18446744073709551615", "18446744073709551616", "", "+", "++1",
        "-1", " 5", "5 ", "1_000", "5s", "00000000000000000000000000000000000009", "+0",
        "99999999999999999999999999", "٣",
    ];
    for case in cases {
        assert_eq!(parse_u64(case), case.parse::<u64>().ok(), "{case:?}");
    }
}

#[test]
fn decimal_is_read_back() {
    for n in [0, 1, 9, 10, 99, 100, 1_700_000_000, u64::MAX] {
        assert_eq!(parse_u64(&decimal_text(n)), Some(n));
    }
}

#[test]
fn padding_fills_up_to_the_width() {
    assert_eq!(pad_right("pubsub", 10), "pubsub    ");
    assert_eq!(pad_right("pubsub", 6), "pubsub");
    assert_eq!(pad_right("pubsub", 2), "pubsub");
    assert_eq!(pad_right("ü", 3), format!("{:<3}", "ü"));
}

#[test]
fn end_slashes_are_trimmed() {
    assert_eq!(trim_end_slashes("http://h:1"), "http://h:1");
    assert_eq!(trim_end_slashes("http://h:1///"), "http://h:1");
    assert_eq!(trim_end_slashes("///"), "");
    assert_eq!(trim_end_slashes(""), "");
}

#[test]
fn bytes_are_compared_and_joined() {
    assert!(same_bytes(b"abc", b"abc"));
    assert!(!same_bytes(b"abc", b"abd"));
    assert!(!same_bytes(b"abc", b"ab"));
    assert!(same_bytes(b"", b""));
    assert_eq!(joined(b"echo:", b"x"), b"echo:x".to_vec());
}

#[test]
fn lists_are_shown_as_std_shows_them() {
    let lists: [&[&str]; 5] = [&[], &["x"], &["x", "y\""], &["", "a, b", "]"], &["\n", "ü\u{200b}"]];
    for list in lists {
        let items: Vec<String> = list.iter().map(|s| s.to_string()).collect();
        assert_eq!(quote_list(&items), format!("{items:?}"));
    }
    assert_eq!(quote_list(&vec!["x".to_string(), "y\"".to_string()]), r#"["x", "y\""]"#);
}

#[test]
fn bytes_are_read_as_text() {
    assert_eq!(readable_text("pong:ü".as_bytes()), "pong:ü");
    assert_eq!(readable_text(b"a\xffb"), "a\u{FFFD}b");
    assert_eq!(readable_text(b""), "");
}
