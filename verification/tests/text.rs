use backend_rust::settings::{get_bool, SettingsMap};
use backend_rust::text::{format_i64, format_u64, parse_i64, split_on, str_eq, string_of};

#[test]
fn parse_i64_accepts_what_std_accepts() {
    assert_eq!(parse_i64("42"), Some(42));
    assert_eq!(parse_i64("+7"), Some(7));
    assert_eq!(parse_i64("-0"), Some(0));
    assert_eq!(parse_i64("-15"), Some(-15));
    assert_eq!(parse_i64("007"), Some(7));
    assert_eq!(parse_i64("9223372036854775807"), Some(i64::MAX));
    assert_eq!(parse_i64("-9223372036854775808"), Some(i64::MIN));
}

#[test]
fn parse_i64_refuses_what_std_refuses() {
    for s in [
        "",
        "+",
        "-",
        " 1",
        "1 ",
        "1a",
        "--1",
        "9223372036854775808",
        "-9223372036854775809",
        "99999999999999999999",
    ] {
        assert_eq!(parse_i64(s), None, "{s:?}");
        assert_eq!(parse_i64(s), s.parse::<i64>().ok(), "{s:?}");
    }
}

#[test]
fn format_then_parse_gives_the_number_back() {
    for n in [0i64, 1, -1, 10, 255, -4096, i64::MAX, i64::MIN] {
        let text = format_i64(n);
        assert_eq!(text, n.to_string());
        assert_eq!(parse_i64(&text), Some(n));
    }
    assert_eq!(format_u64(u64::MAX), u64::MAX.to_string());
    assert_eq!(format_u64(0), "0");
}

#[test]
fn split_then_join_gives_the_text_back() {
    for s in ["", "a", "a,b", ",", "a,,b,", ",lead"] {
        let parts = split_on(s, ',');
        let expected: Vec<String> = s.split(',').map(|p| p.to_string()).collect();
        assert_eq!(parts, expected);
        assert_eq!(parts.join(","), s);
    }
}

#[test]
fn boolean_settings_trim_unicode_whitespace_and_lowercase() {
    let map = SettingsMap {
        entries: vec![
            ("a".to_string(), Some("\u{a0}ON\u{85}".to_string())),
            ("b".to_string(), Some("\t\nNo \u{3000}".to_string())),
            ("c".to_string(), Some("\u{200b}yes".to_string())),
        ],
    };
    assert!(get_bool(&map, "a", false));
    assert!(!get_bool(&map, "b", true));
    // A zero-width space is no whitespace: the text is no boolean.
    assert!(get_bool(&map, "c", true));
    assert!(!get_bool(&map, "c", false));
}

#[test]
fn string_helpers() {
    assert_eq!(string_of("abc"), "abc".to_string());
    assert!(str_eq("same", "same"));
    assert!(!str_eq("same", "Same"));
}
