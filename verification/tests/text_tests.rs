use truehub_api::text::{
    i64_to_decimal, join_strings, last_piece, parse_i32, split_once_char, str_contains, str_eq,
    to_lowercase, div_rem_i64,
};

#[test]
fn decimal_text_of_integers() {
    assert_eq!(i64_to_decimal(0), "0");
    assert_eq!(i64_to_decimal(42), "42");
    assert_eq!(i64_to_decimal(-7), "-7");
    assert_eq!(i64_to_decimal(i64::MAX), i64::MAX.to_string());
    assert_eq!(i64_to_decimal(i64::MIN), i64::MIN.to_string());
}

#[test]
fn parse_i32_accepts_what_std_accepts() {
    assert_eq!(parse_i32("42"), Some(42));
    assert_eq!(parse_i32("-7"), Some(-7));
    assert_eq!(parse_i32("+5"), Some(5));
    assert_eq!(parse_i32("00012"), Some(12));
    assert_eq!(parse_i32("2147483647"), Some(i32::MAX));
    assert_eq!(parse_i32("-2147483648"), Some(i32::MIN));
}

#[test]
fn parse_i32_rejects_what_std_rejects() {
    assert_eq!(parse_i32(""), None);
    assert_eq!(parse_i32("-"), None);
    assert_eq!(parse_i32("+"), None);
    assert_eq!(parse_i32(" 1"), None);
    assert_eq!(parse_i32("1 "), None);
    assert_eq!(parse_i32("12a"), None);
    assert_eq!(parse_i32("2147483648"), None);
    assert_eq!(parse_i32("-2147483649"), None);
    assert_eq!(parse_i32("99999999999999999999"), None);
}

#[test]
fn parse_i32_agrees_with_std_on_samples() {
    for s in ["0", "-0", "+0", "35", "-35", "1e3", "٣", "--1", "+-1", "2147483650"] {
        assert_eq!(parse_i32(s), s.parse::<i32>().ok(), "input {s:?}");
    }
}

#[test]
fn contains_and_equality() {
    assert!(str_contains("error: enotauthenticated", "enotauthenticated"));
    assert!(str_contains("abc", ""));
    assert!(!str_contains("ab", "abc"));
    assert!(str_eq("même", "même"));
    assert!(!str_eq("a", "ab"));
}

#[test]
fn lowercase_uses_unicode_rules() {
    assert_eq!(to_lowercase("Invalid SESSION"), "invalid session");
    assert_eq!(to_lowercase("ÄÖ"), "äö");
}

#[test]
fn join_and_last_piece() {
    let tags = vec!["media".to_string(), "backup".to_string(), "tools".to_string()];
    assert_eq!(join_strings(&tags, ", "), "media, backup, tools");
    assert_eq!(join_strings(&Vec::new(), ", "), "");
    assert_eq!(last_piece("/mnt/tank/share", '/'), "share");
    assert_eq!(last_piece("/mnt/tank/", '/'), "");
    assert_eq!(last_piece("plain", '/'), "plain");
}

#[test]
fn split_at_first_separator() {
    assert_eq!(split_once_char("a:b:c", ':'), Some(("a".to_string(), "b:c".to_string())));
    assert_eq!(split_once_char(":x", ':'), Some((String::new(), "x".to_string())));
    assert_eq!(split_once_char("none", ':'), None);
}

#[test]
fn truncating_division() {
    assert_eq!(div_rem_i64(125, 60), (2, 5));
    assert_eq!(div_rem_i64(-125, 60), (-2, -5));
    assert_eq!(div_rem_i64(i64::MIN, 1), (i64::MIN, 0));
}

#[test]
fn white_space_matches_std_on_every_char() {
    for u in 0u32..=0x10FFFF {
        if let Some(c) = char::from_u32(u) {
            assert_eq!(truehub_api::text::char_is_whitespace(c), c.is_whitespace(), "{u:#x}");
        }
    }
}
