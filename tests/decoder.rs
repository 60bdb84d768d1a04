use rust_discord_bot::sse::{is_blank_answer, SseEvent, StreamDecoder};
use rust_discord_bot::ChatError;

/// Feeds a whole body to a decoder and folds every event, as the client does.
fn decode(chunks: &[&[u8]]) -> Result<(StreamDecoder, Vec<(String, String)>), ChatError> {
    let mut decoder = StreamDecoder::new();
    let mut seen = Vec::new();
    let mut next_chunk = 0;
    loop {
        match decoder.next_event() {
            Some(ev) => {
                seen.push((ev.name.clone(), ev.data.clone()));
                decoder.apply_event(&ev)?;
                if decoder.is_done() {
                    break;
                }
            }
            None => {
                if decoder.is_done() {
                    break;
                }
                if next_chunk < chunks.len() {
                    decoder.push_chunk(chunks[next_chunk]);
                    next_chunk += 1;
                } else {
                    decoder.finish_input();
                    match decoder.next_event() {
                        Some(ev) => {
                            seen.push((ev.name.clone(), ev.data.clone()));
                            decoder.apply_event(&ev)?;
                        }
                        None => break,
                    }
                }
            }
        }
    }
    Ok((decoder, seen))
}

#[test]
fn two_answer_frames_give_hi_there() {
    let first = b"event: answer\ndata: {\"choices\":[{\"delta\":{\"content\":\"Hi\"}}]}\n\n";
    let second =
        b"event: answer\ndata: {\"choices\":[{\"delta\":{\"content\":\" there\"},\"finish_reason\":\"stop\"}]}\n\n";
    let (decoder, _) = decode(&[first, second]).unwrap();
    let response = decoder.into_response();
    assert_eq!(response.content, "Hi there");
    assert_eq!(response.events.len(), 2);
    assert_eq!(response.events[0].0, "answer");
    assert_eq!(response.events[0].1, "{\"choices\":[{\"delta\":{\"content\":\"Hi\"}}]}");
    assert_eq!(
        response.events[1].1,
        "{\"choices\":[{\"delta\":{\"content\":\" there\"},\"finish_reason\":\"stop\"}]}"
    );
}

#[test]
fn fast_answer_with_stop_ends_reading() {
    let body = b"event: fastAnswer\ndata: {\"choices\":[{\"delta\":{\"content\":\"quick\"},\"finish_reason\":\"stop\"}]}\n\nevent: answer\ndata: {\"choices\":[{\"delta\":{\"content\":\"late\"}}]}\n\n";
    let (mut decoder, seen) = decode(&[body]).unwrap();
    assert_eq!(seen.len(), 1);
    assert!(decoder.is_done());
    assert!(decoder.next_event().is_none());
    let response = decoder.into_response();
    assert_eq!(response.content, "quick");
    assert_eq!(response.events.len(), 1);
}

#[test]
fn lines_split_across_chunks_are_joined() {
    let body = "event: answer\r\ndata: {\"choices\":[{\"delta\":{\"content\":\"你好\"}}]}\r\n".as_bytes();
    let (a, b) = body.split_at(30);
    let (b, c) = b.split_at(10);
    let (decoder, seen) = decode(&[a, b, c]).unwrap();
    assert_eq!(seen.len(), 1);
    assert_eq!(decoder.content(), "你好");
}

#[test]
fn empty_stream_gives_empty_content() {
    let (decoder, seen) = decode(&[]).unwrap();
    assert!(seen.is_empty());
    let response = decoder.into_response();
    assert_eq!(response.content, "");
    assert!(response.events.is_empty());
    assert!(response.raw_response.choices.is_empty());
}

#[test]
fn message_content_fills_an_empty_accumulator() {
    let body = b"event: answer\ndata: {\"choices\":[{\"delta\":{\"content\":\"  \"},\"message\":{\"content\":\"full answer\"}}]}\n";
    let (decoder, _) = decode(&[body]).unwrap();
    assert_eq!(decoder.content(), "full answer");
}

#[test]
fn blank_deltas_are_ignored() {
    let body = b"event: answer\ndata: {\"choices\":[{\"delta\":{\"content\":\"a\"}}]}\nevent: answer\ndata: {\"choices\":[{\"delta\":{\"content\":\" \\n \"}}]}\n";
    let (decoder, seen) = decode(&[body]).unwrap();
    assert_eq!(seen.len(), 2);
    assert_eq!(decoder.content(), "a");
}

#[test]
fn fast_answer_comes_before_answer() {
    let body = b"event: answer\ndata: {\"choices\":[{\"delta\":{\"content\":\"detail\"}}]}\nevent: fastAnswer\ndata: {\"choices\":[{\"delta\":{\"content\":\"fast \"}}]}\n";
    let (decoder, _) = decode(&[body]).unwrap();
    assert_eq!(decoder.content(), "fast detail");
}

#[test]
fn other_events_are_logged_but_not_parsed() {
    let body = b"event: flowNodeStatus\ndata: not json at all\n: comment line\ndata: {}\n";
    let (decoder, seen) = decode(&[body]).unwrap();
    assert_eq!(seen.len(), 2);
    assert_eq!(seen[0], ("flowNodeStatus".to_string(), "not json at all".to_string()));
    assert_eq!(decoder.content(), "");
}

#[test]
fn malformed_answer_data_is_a_decode_error() {
    let body = b"event: answer\ndata: {\"choices\": [\n";
    match decode(&[body]) {
        Err(ChatError::Decode { data }) => assert_eq!(data, "{\"choices\": ["),
        _ => panic!("expected a decode error"),
    }
}

#[test]
fn final_line_without_newline_counts() {
    let body = b"event: answer\ndata: {\"choices\":[{\"delta\":{\"content\":\"tail\"}}]}";
    let (decoder, seen) = decode(&[body]).unwrap();
    assert_eq!(seen.len(), 1);
    assert_eq!(decoder.content(), "tail");
}

#[test]
fn apply_ignores_events_of_other_names() {
    let mut decoder = StreamDecoder::new();
    let ev = SseEvent { name: "flowResponses".to_string(), data: "[".to_string() };
    assert!(decoder.apply_event(&ev).is_ok());
    assert_eq!(decoder.content(), "");
}

#[test]
fn blank_answers_are_recognised() {
    assert!(is_blank_answer(""));
    assert!(is_blank_answer(" \n\t\u{3000}"));
    assert!(!is_blank_answer(" Hi "));
}
