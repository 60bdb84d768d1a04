use rust_discord_bot::commands::{
    button_id, clip_field, parse_page_button, total_images, Listing, PageAction,
};
use rust_discord_bot::config::{Config, ConfigError, RawSettings, Setting};
use rust_discord_bot::session::SessionInfo;
use rust_discord_bot::text::{parse_u64, split_text};

fn raw() -> RawSettings {
    RawSettings {
        fastgpt_api_url: Some("http://backend/api".to_string()),
        fastgpt_auth_token: Some("SECRET-REDACTED".to_string()),
        font_paths: None,
        font_size: None,
        padding: None,
        discord_token: Some("discord".to_string()),
        discord_channel_whitelist: None,
        session_expiry: None,
        api_concurrency_limit: None,
    }
}

#[test]
fn defaults_fill_unset_values() {
    let c = Config::from_settings("/bot", &raw()).unwrap();
    assert_eq!(c.data_dir, "/bot/data");
    assert_eq!(c.image_output_dir, "/bot/data/pic");
    assert_eq!(c.font_paths, vec!["./assets/fonts/LXGWWenKaiGBScreen.ttf".to_string()]);
    assert_eq!((c.font_size, c.padding), (24, 30));
    assert_eq!(c.session_expiry, 3600);
    assert_eq!(c.api_concurrency_limit, 5);
    assert!(c.discord_channel_whitelist.is_empty());
    assert_eq!(c.fastgpt_auth_token, "SECRET-REDACTED");
}

#[test]
fn lists_and_numbers_are_read() {
    let mut r = raw();
    r.font_paths = Some(" a.ttf , /b.ttf".to_string());
    r.discord_channel_whitelist = Some("1, ,2,".to_string());
    r.font_size = Some("+18".to_string());
    r.api_concurrency_limit = Some("2".to_string());
    let c = Config::from_settings(".", &r).unwrap();
    assert_eq!(c.font_paths, vec!["a.ttf".to_string(), "/b.ttf".to_string()]);
    assert_eq!(c.discord_channel_whitelist, vec!["1".to_string(), "2".to_string()]);
    assert_eq!(c.font_size, 18);
    assert_eq!(c.api_concurrency_limit, 2);
}

#[test]
fn missing_and_malformed_settings_are_reported() {
    let mut r = raw();
    r.fastgpt_api_url = None;
    assert_eq!(Config::from_settings(".", &r).unwrap_err(), ConfigError::Missing(Setting::FastgptApiUrl));
    let mut r = raw();
    r.font_size = Some("big".to_string());
    assert_eq!(Config::from_settings(".", &r).unwrap_err(), ConfigError::NotANumber(Setting::FontSize));
    let mut r = raw();
    r.padding = Some("4294967296".to_string());
    assert_eq!(Config::from_settings(".", &r).unwrap_err(), ConfigError::NotANumber(Setting::Padding));
    let mut r = raw();
    r.discord_token = None;
    assert_eq!(Config::from_settings(".", &r).unwrap_err(), ConfigError::Missing(Setting::DiscordToken));
    assert_eq!(Setting::DiscordToken.variable(), "DISCORD_TOKEN");
}

#[test]
fn numbers_parse_like_std() {
    for s in ["0", "42", "+7", "007", "18446744073709551615", "18446744073709551616", "", "+", "-1", " 1", "1a"] {
        assert_eq!(parse_u64(s), s.parse::<u64>().ok(), "{s:?}");
    }
}

#[test]
fn split_matches_std() {
    for s in ["", "a", "a,b", ",a,,b,", "中,文"] {
        let expected: Vec<String> = s.split(',').map(String::from).collect();
        assert_eq!(split_text(s, ','), expected);
    }
}

#[test]
fn button_ids_round_trip() {
    let id = button_id(Listing::History, "1234", 3, PageAction::Next);
    assert_eq!(id, "history_1234_3_next");
    let b = parse_page_button(&id).unwrap();
    assert_eq!((b.listing, b.user_id.as_str(), b.page, b.action), (Listing::History, "1234", 3, PageAction::Next));
    let b = parse_page_button("stats_9_x_prev").unwrap();
    assert_eq!((b.listing, b.page, b.action), (Listing::Stats, 0, PageAction::Prev));
    assert!(parse_page_button("history_1_2").is_none());
    assert!(parse_page_button("other_1_2_next").is_none());
    let b = parse_page_button("history_1_2_jump").unwrap();
    assert_eq!(b.action, PageAction::Stay);
}

#[test]
fn long_fields_are_clipped() {
    let t = "x".repeat(2000);
    let c = clip_field(&t);
    assert_eq!(c.chars().count(), 1024);
    assert!(c.ends_with("..."));
    assert_eq!(clip_field("short"), "short");
}

#[test]
fn image_totals_add_up() {
    let s = |n: u32| SessionInfo { id: String::new(), input_preview: String::new(), last_modified: 0, images: n };
    assert_eq!(total_images(&vec![s(1), s(2), s(u32::MAX)]), 3 + u32::MAX as u64);
    assert_eq!(total_images(&vec![]), 0);
}
