use local_server::calendar::{unix_to_windows_ticks, windows_ticks_to_unix, CalendarMatter};
use local_server::text::{split_char, str_eq, trim_str, u16_to_decimal};

#[test]
fn str_eq_is_character_exact() {
    assert!(str_eq("abc", "abc"));
    assert!(!str_eq("abc", "abd"));
    assert!(!str_eq("abc", "ab"));
    assert!(str_eq("", ""));
}

#[test]
fn trim_removes_surrounding_whitespace_only() {
    assert_eq!(trim_str("  a b \t"), "a b");
    assert_eq!(trim_str("a"), "a");
    assert_eq!(trim_str("   "), "");
    assert_eq!(trim_str(""), "");
    assert_eq!(trim_str("\r\nx\n"), "x");
}

#[test]
fn split_keeps_empty_segments() {
    assert_eq!(split_char("a,b", ','), vec!["a", "b"]);
    assert_eq!(split_char(",", ','), vec!["", ""]);
    assert_eq!(split_char("", ','), vec![""]);
    assert_eq!(split_char("a,,b", ','), vec!["a", "", "b"]);
    assert_eq!(split_char("matter/7", '/'), vec!["matter", "7"]);
}

#[test]
fn ports_render_in_decimal() {
    assert_eq!(u16_to_decimal(0), "0");
    assert_eq!(u16_to_decimal(7), "7");
    assert_eq!(u16_to_decimal(8080), "8080");
    assert_eq!(u16_to_decimal(65535), "65535");
}

#[test]
fn tick_conversion_matches_the_platform_epoch() {
    assert_eq!(unix_to_windows_ticks(0), 116_444_736_000_000_000);
    let new_year_2024 = 1_704_067_200;
    let ticks = unix_to_windows_ticks(new_year_2024);
    assert_eq!(ticks, 133_485_408_000_000_000);
    assert_eq!(windows_ticks_to_unix(ticks), new_year_2024);
    // sub-second ticks round down to the second they fall in
    assert_eq!(windows_ticks_to_unix(ticks + 9_999_999), new_year_2024);
}

#[test]
fn calendar_import_fixes_priority_and_kind() {
    let m = CalendarMatter::from_event_parts(
        String::from("ev-1"),
        String::from("standup"),
        String::from(""),
        String::from("2024-01-01T09:00:00Z"),
        String::from("2024-01-01T09:15:00Z"),
        1,
    );
    assert_eq!(m.id, "ev-1");
    assert_eq!(m.title, "standup");
    assert_eq!(m.priority, 0);
    assert_eq!(m.type_, 3);
    assert_eq!(m.sub_type, 1);
    assert_eq!(m.start_time, "2024-01-01T09:00:00Z");
    assert_eq!(m.end_time, "2024-01-01T09:15:00Z");
}
