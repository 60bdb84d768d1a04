use rust_discord_bot::commands::{format_session_info, format_time, short_session_id};
use rust_discord_bot::safe_truncate;
use rust_discord_bot::session::SessionInfo;
use rust_discord_bot::text::{decimal_text, text_ends_with, truncate};

#[test]
fn truncate_short() {
    assert_eq!(safe_truncate("hello", 10), "hello");
}

#[test]
fn truncate_exact() {
    let s = "1234567890";
    assert_eq!(safe_truncate(s, 10), s);
}

#[test]
fn truncate_long() {
    let s = "a".repeat(100);
    let t = safe_truncate(&s, 10);
    assert_eq!(t.chars().count(), 10);
}

#[test]
fn truncate_keeps_whole_characters() {
    assert_eq!(safe_truncate("你好世界", 2), "你好");
    assert_eq!(truncate("你好世界", 3), "你好世");
    assert_eq!(truncate("abc", 0), "");
}

#[test]
fn decimal_text_writes_digits() {
    assert_eq!(decimal_text(0), "0");
    assert_eq!(decimal_text(7), "7");
    assert_eq!(decimal_text(1234567890), "1234567890");
    assert_eq!(decimal_text(u64::MAX), u64::MAX.to_string());
}

#[test]
fn ends_with_compares_characters() {
    assert!(text_ends_with("photo.png", ".png"));
    assert!(!text_ends_with("png", ".png"));
}

#[test]
fn time_is_formatted_in_utc() {
    assert_eq!(format_time(1431648000), "2015-05-15 00:00:00");
    assert_eq!(format_time(i64::MAX), "?");
}

#[test]
fn short_id_keeps_eight_characters() {
    assert_eq!(short_session_id("0123456789abcdef"), "01234567");
    assert_eq!(short_session_id("abc"), "abc");
    assert_eq!(short_session_id("ééééabcd"), "éééé");
    assert_eq!(short_session_id("aéééé"), "aééé");
    assert_eq!(short_session_id("12345678"), "12345678");
}

#[test]
fn short_id_matches_byte_slicing_on_boundaries() {
    for id in ["a1b2c3d4-0000-4000-8000-000000000000", "ééééabcd", "x", "", "中文会话标识"] {
        let expected = if id.len() > 8 && id.is_char_boundary(8) { &id[..8] } else if id.len() <= 8 { id } else { continue };
        assert_eq!(short_session_id(id), expected);
    }
}

#[test]
fn entry_of_non_ascii_id_shows_eight_bytes() {
    let info = SessionInfo {
        id: "ééééabcd".to_string(),
        input_preview: "q".to_string(),
        last_modified: 0,
        images: 0,
    };
    assert!(format_session_info(4, &info).starts_with("**5. 会话 `éééé`**"));
}

#[test]
fn session_entry_layout() {
    let info = SessionInfo {
        id: "a1b2c3d4-0000-4000-8000-000000000000".to_string(),
        input_preview: "hello".to_string(),
        last_modified: 1431648000,
        images: 2,
    };
    assert_eq!(
        format_session_info(0, &info),
        "**1. 会话 `a1b2c3d4`**\n   问题: hello\n   时间: 2015-05-15 00:00:00\n   图片数: 2\n"
    );
}
