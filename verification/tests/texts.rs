use quorum_list_server::text::{chars_of, find_last, parse_u16, parse_u32, text_eq, to_decimal};

#[test]
fn characters_are_listed_in_order() {
    assert_eq!(chars_of("a:b"), vec!['a', ':', 'b']);
    assert_eq!(chars_of(""), Vec::<char>::new());
    assert_eq!(chars_of("é:ü"), vec!['é', ':', 'ü']);
}

#[test]
fn texts_are_compared_by_their_characters() {
    assert!(text_eq("", ""));
    assert!(text_eq("POSE_BANNED", "POSE_BANNED"));
    assert!(!text_eq("POSE_BANNED", "POSE_BANNEd"));
    assert!(!text_eq("abc", "ab"));
    assert!(!text_eq("ab", "abc"));
    assert!(text_eq("héllo", "héllo"));
}

#[test]
fn last_occurrence_is_found() {
    assert_eq!(find_last(&chars_of("a:b:c"), ':'), Some(3));
    assert_eq!(find_last(&chars_of(":"), ':'), Some(0));
    assert_eq!(find_last(&chars_of("abc"), ':'), None);
    assert_eq!(find_last(&chars_of(""), ':'), None);
}

#[test]
fn ports_are_read() {
    assert_eq!(parse_u16("0"), Some(0));
    assert_eq!(parse_u16("3000"), Some(3000));
    assert_eq!(parse_u16("+80"), Some(80));
    assert_eq!(parse_u16("0080"), Some(80));
    assert_eq!(parse_u16("65535"), Some(65535));
    assert_eq!(parse_u16("65536"), None);
    assert_eq!(parse_u16("99999999999999999999999"), None);
    assert_eq!(parse_u16(""), None);
    assert_eq!(parse_u16("+"), None);
    assert_eq!(parse_u16("++1"), None);
    assert_eq!(parse_u16("-1"), None);
    assert_eq!(parse_u16("80 "), None);
    assert_eq!(parse_u16(" 80"), None);
    assert_eq!(parse_u16("8_0"), None);
    assert_eq!(parse_u16("8a"), None);
    assert_eq!(parse_u16("٣"), None);
}

#[test]
fn reading_agrees_with_the_standard_library() {
    for text in ["0", "1", "+1", "-1", "007", "65535", "65536", "", "+", "1e3", "12 ", "4294967295", "4294967296", "+0"] {
        assert_eq!(parse_u16(text), text.parse::<u16>().ok(), "u16 of {:?}", text);
        assert_eq!(parse_u32(text), text.parse::<u32>().ok(), "u32 of {:?}", text);
    }
}

#[test]
fn offsets_are_read() {
    assert_eq!(parse_u32("8"), Some(8));
    assert_eq!(parse_u32("4294967295"), Some(4294967295));
    assert_eq!(parse_u32("4294967296"), None);
    assert_eq!(parse_u32("42949672950"), None);
}

#[test]
fn numbers_are_written_in_decimal() {
    assert_eq!(to_decimal(0), "0");
    assert_eq!(to_decimal(7), "7");
    assert_eq!(to_decimal(10), "10");
    assert_eq!(to_decimal(1443), "1443");
    assert_eq!(to_decimal(65535), "65535");
    assert_eq!(to_decimal(u64::MAX), "18446744073709551615");
}
