use rust_discord_bot::config::Config;
use rust_discord_bot::session::{
    cleaned_marker_text, count_images, image_files, image_links_text, input_preview,
    is_image_file_name, needs_cleanup, select_user_sessions, SessionManager, SessionRecord,
    SECONDS_PER_DAY,
};

fn config() -> Config {
    Config {
        root_dir: ".".to_string(),
        data_dir: "data".to_string(),
        fastgpt_api_url: String::new(),
        fastgpt_auth_token: String::new(),
        image_output_dir: "data/pic".to_string(),
        font_paths: vec![],
        font_size: 24,
        padding: 30,
        discord_token: String::new(),
        discord_channel_whitelist: vec![],
        session_expiry: 0,
        api_concurrency_limit: 1,
    }
}

fn names(v: &[&str]) -> Vec<String> {
    v.iter().map(|s| s.to_string()).collect()
}

#[test]
fn new_session_then_listing_shows_its_question() {
    let manager = SessionManager::new(&config());
    let session = manager.allot_session();
    assert_eq!(session.id.len(), 36);
    assert_eq!(session.dir, format!("data/sessions/{}", session.id));
    assert_eq!(session.owner_file, format!("data/sessions/{}/user_id.txt", session.id));
    let records = vec![SessionRecord {
        id: session.id.clone(),
        owner: Some("owner".to_string()),
        input: Some("hello".to_string()),
        modified: Some(1_700_000_000),
        file_names: names(&["user_id.txt", "input.txt"]),
    }];
    let sessions = select_user_sessions(&records, "owner", 0);
    assert_eq!(sessions.len(), 1);
    assert!(sessions[0].input_preview.starts_with("hello"));
    assert_eq!(sessions[0].id, session.id);
    assert_eq!(sessions[0].images, 0);
}

#[test]
fn listing_filters_by_owner_and_sorts_newest_first() {
    let record = |id: &str, owner: Option<&str>, t: Option<i64>| SessionRecord {
        id: id.to_string(),
        owner: owner.map(|o| o.to_string()),
        input: None,
        modified: t,
        file_names: names(&["a.png", "b.jpeg", "c.txt", ".png"]),
    };
    let records = vec![
        record("old", Some("u1\n"), Some(100)),
        record("other", Some("u2"), Some(500)),
        record("new", Some(" u1 "), Some(300)),
        record("unknown-time", Some("u1"), None),
        record("orphan", None, Some(900)),
    ];
    let sessions = select_user_sessions(&records, "u1", 200);
    let ids: Vec<&str> = sessions.iter().map(|s| s.id.as_str()).collect();
    assert_eq!(ids, vec!["new", "unknown-time", "old"]);
    assert_eq!(sessions[1].last_modified, 200);
    assert_eq!(sessions[0].images, 3);
    assert_eq!(sessions[0].input_preview, "无法读取输入");
}

#[test]
fn preview_is_cut_at_thirty_characters() {
    let long = "问".repeat(40);
    let p = input_preview(&Some(long));
    assert_eq!(p, format!("{}...", "问".repeat(30)));
    assert_eq!(input_preview(&Some("x".repeat(30))), "x".repeat(30));
}

#[test]
fn expired_session_images_are_swept_and_sweep_repeats_cleanly() {
    let age = 3 * SECONDS_PER_DAY;
    assert!(needs_cleanup(true, Some(age), 2));
    let files = names(&["input.txt", "response.md", "user_id.txt", "response_1.png", "x.jpg", "y.jpeg"]);
    let doomed = image_files(&files);
    assert_eq!(doomed, names(&["response_1.png", "x.jpg", "y.jpeg"]));
    let left: Vec<String> = files.into_iter().filter(|f| !doomed.contains(f)).collect();
    assert_eq!(left, names(&["input.txt", "response.md", "user_id.txt"]));
    assert!(image_files(&left).is_empty());
    assert_eq!(cleaned_marker_text("2024-01-01T00:00:00+00:00"), "图片已于 2024-01-01T00:00:00+00:00 清理");
}

#[test]
fn fresh_session_is_kept() {
    assert!(!needs_cleanup(true, Some(2 * SECONDS_PER_DAY), 2));
    assert!(!needs_cleanup(true, None, 2));
    assert!(needs_cleanup(true, Some(2 * SECONDS_PER_DAY + 1), 2));
    assert!(!needs_cleanup(true, Some(u64::MAX), u64::MAX));
}

#[test]
fn orphan_session_is_swept_whatever_its_age() {
    assert!(needs_cleanup(false, Some(0), 2));
    assert!(needs_cleanup(false, None, 1000));
}

#[test]
fn image_names_by_extension() {
    assert!(is_image_file_name("a.png"));
    assert!(is_image_file_name("a.jpg"));
    assert!(is_image_file_name("a.jpeg"));
    assert!(!is_image_file_name(".png"));
    assert!(!is_image_file_name("a.PNG"));
    assert!(!is_image_file_name("a.gif"));
    assert_eq!(count_images(&names(&["a.png", ".jpeg", "b.jpg", "c", "a.PNG"])), 3);
    assert_eq!(count_images(&names(&[".png"])), 1);
}

#[test]
fn session_paths() {
    let manager = SessionManager::new(&config());
    assert_eq!(manager.sessions_dir(), "data/sessions");
    assert_eq!(manager.get_session_dir("abc"), "data/sessions/abc");
    assert_eq!(manager.input_file("abc"), "data/sessions/abc/input.txt");
    assert_eq!(manager.response_file("abc"), "data/sessions/abc/response.md");
    assert_eq!(manager.cleaned_marker("abc"), "data/sessions/abc/.cleaned");
    assert_eq!(manager.response_image_path("abc", 1700000000), "data/sessions/abc/response_1700000000.png");
    let mut c = config();
    c.data_dir = "/srv/data/".to_string();
    assert_eq!(SessionManager::new(&c).get_session_dir("s"), "/srv/data/sessions/s");
}

#[test]
fn image_links_one_per_line() {
    assert_eq!(image_links_text(&names(&["http://a/1.png", "http://b/2.jpg"])), "http://a/1.png\nhttp://b/2.jpg\n");
    assert_eq!(image_links_text(&vec![]), "");
}
