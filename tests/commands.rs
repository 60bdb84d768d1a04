use rust_discord_bot::commands::{join_lines, on_progress_event, page_window, PageAction};
use rust_discord_bot::models::{
    bearer_value, default_token_count, user_question, ChatCompletionResponse, ContentPart,
    FastGPTChatRequest, MessageContent, Role,
};

#[test]
fn paging_moves_and_clamps() {
    let w = page_window(25, 0, PageAction::Stay);
    assert_eq!((w.page, w.total_pages, w.start, w.end), (0, 3, 0, 10));
    assert!(w.prev_disabled && !w.next_disabled);
    let w = page_window(25, 1, PageAction::Next);
    assert_eq!((w.page, w.start, w.end), (2, 20, 25));
    assert!(!w.prev_disabled && w.next_disabled);
    let w = page_window(25, 2, PageAction::Next);
    assert_eq!(w.page, 2);
    let w = page_window(25, 0, PageAction::Prev);
    assert_eq!(w.page, 0);
    let w = page_window(0, 3, PageAction::Next);
    assert_eq!((w.page, w.total_pages, w.start, w.end), (0, 0, 0, 0));
    let w = page_window(10, 0, PageAction::Stay);
    assert_eq!((w.total_pages, w.end), (1, 10));
    assert!(w.next_disabled);
}

#[test]
fn running_steps_are_marked_done() {
    let mut lines: Vec<String> = Vec::new();
    assert!(on_progress_event(&mut lines, "flowNodeStatus", r#"{"status":"running","name":"检索"}"#));
    assert_eq!(lines, vec!["🔄 丨检索".to_string()]);
    assert!(on_progress_event(&mut lines, "flowNodeStatus", r#"{"status":"running","name":"回答"}"#));
    assert_eq!(lines, vec!["✅ 丨检索".to_string(), "🔄 丨回答".to_string()]);
    assert!(!on_progress_event(&mut lines, "flowNodeStatus", r#"{"status":"finished","name":"x"}"#));
    assert!(!on_progress_event(&mut lines, "answer", r#"{"status":"running","name":"x"}"#));
    assert!(!on_progress_event(&mut lines, "flowNodeStatus", "not json"));
    assert_eq!(lines.len(), 2);
    assert_eq!(join_lines(&lines), "✅ 丨检索\n🔄 丨回答");
    assert_eq!(join_lines(&vec![]), "");
}

#[test]
fn question_message_lists_text_then_images() {
    let m = user_question("what is this?", &vec!["http://x/1.png".to_string()]);
    assert_eq!(m.role, Role::User);
    match m.content {
        MessageContent::Parts(parts) => {
            assert_eq!(parts.len(), 2);
            assert!(matches!(&parts[0], ContentPart::Text(t) if t == "what is this?"));
            assert!(matches!(&parts[1], ContentPart::ImageUrl(u) if u == "http://x/1.png"));
        }
        _ => panic!("expected parts"),
    }
}

#[test]
fn request_keeps_its_fields() {
    let m = user_question("q", &vec![]);
    let r = FastGPTChatRequest::new(Some("c".to_string()), None, vec![m], true, false, None);
    assert_eq!(r.chat_id.as_deref(), Some("c"));
    assert!(r.response_chat_item_id.is_none());
    assert!(r.stream && !r.detail);
    assert_eq!(r.messages.len(), 1);
}

#[test]
fn small_builders() {
    assert_eq!(bearer_value("t0k"), "Bearer t0k");
    assert_eq!(default_token_count(), 1);
    let empty = ChatCompletionResponse::empty();
    assert_eq!(empty.usage.total_tokens, 0);
    assert!(empty.id.is_empty());
}
