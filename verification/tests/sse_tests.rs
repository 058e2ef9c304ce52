use agentoven::error::A2AError;
use agentoven::event_types;
use agentoven::json::Json;
use agentoven::message::Message;
use agentoven::sse::{parse_sse_event, read_line, SseDecoder, SseLine, StreamEvent};
use agentoven::task::{TaskEvent, TaskState};
use agentoven::wire::Wire;

fn state_changed(task_id: &str, state: TaskState) -> TaskEvent {
    TaskEvent::StateChanged { task_id: task_id.into(), state }
}

fn line_of(event: &TaskEvent) -> String {
    format!("data: {}\n", event.to_json().to_text().unwrap())
}

#[test]
fn one_event_then_done() {
    let event = state_changed("t-1", TaskState::Working);
    let mut decoder = SseDecoder::new();
    let first = decoder.feed(line_of(&event).as_bytes());
    assert_eq!(first, vec![Ok(event)]);
    assert!(!decoder.is_done());
    let second = decoder.feed(b"data: [DONE]\n");
    assert_eq!(second, vec![]);
    assert!(decoder.is_done());
    assert_eq!(decoder.finish(), vec![]);
}

#[test]
fn two_data_lines_in_one_chunk_give_two_events() {
    let a = state_changed("t-1", TaskState::Working);
    let b = TaskEvent::ArtifactChunk { task_id: "t-1".into(), artifact_id: "a".into(), chunk: "x".into() };
    let chunk = format!("{}{}", line_of(&a), line_of(&b));
    let mut decoder = SseDecoder::new();
    assert_eq!(decoder.feed(chunk.as_bytes()), vec![Ok(a), Ok(b)]);
}

#[test]
fn a_line_that_spans_chunks_is_put_together() {
    let event = TaskEvent::MessageAdded { task_id: "t".into(), message: Message::agent_text("h\u{e9}llo") };
    let line = line_of(&event);
    let bytes = line.as_bytes();
    for cut in 0..bytes.len() {
        let mut decoder = SseDecoder::new();
        let mut items = decoder.feed(&bytes[..cut]);
        items.extend(decoder.feed(&bytes[cut..]));
        assert_eq!(items, vec![Ok(event.clone())], "cut at {}", cut);
        assert!(decoder.pending.is_empty());
    }
    let mut decoder = SseDecoder::new();
    let mut items = vec![];
    for byte in bytes {
        items.extend(decoder.feed(&[*byte]));
    }
    assert_eq!(items, vec![Ok(event)]);
}

#[test]
fn nothing_is_read_after_done() {
    let event = state_changed("t", TaskState::Completed);
    let chunk = format!("{}data: [DONE]\n{}", line_of(&event), line_of(&event));
    let mut decoder = SseDecoder::new();
    assert_eq!(decoder.feed(chunk.as_bytes()), vec![Ok(event.clone())]);
    assert!(decoder.is_done());
    assert!(decoder.pending.is_empty());
    assert_eq!(decoder.feed(line_of(&event).as_bytes()), vec![]);
    assert_eq!(decoder.finish(), vec![]);
}

#[test]
fn a_malformed_line_yields_one_error_and_decoding_goes_on() {
    let event = state_changed("t", TaskState::Failed);
    let chunk = format!("data: {{broken\n{}data: {{\"type\": \"other\"}}\n{}", line_of(&event), line_of(&event));
    let mut decoder = SseDecoder::new();
    let items = decoder.feed(chunk.as_bytes());
    assert_eq!(items.len(), 4);
    match &items[0] {
        Err(A2AError::StreamingError(message)) => {
            assert!(message.starts_with("Failed to parse SSE event: "), "{}", message);
            assert!(message.len() > "Failed to parse SSE event: ".len());
        },
        other => panic!("no streaming error: {:?}", other),
    }
    assert_eq!(items[1], Ok(event.clone()));
    assert_eq!(items[2], Err(A2AError::StreamingError("Failed to parse SSE event: not a task event".into())));
    assert_eq!(items[3], Ok(event));
}

#[test]
fn lines_without_the_data_prefix_are_skipped() {
    let event = state_changed("t", TaskState::Working);
    let chunk = format!(": comment\nevent: update\n\nid: 5\ndata:{{}}\nData: x\n data: y\n{}", line_of(&event));
    let mut decoder = SseDecoder::new();
    assert_eq!(decoder.feed(chunk.as_bytes()), vec![Ok(event)]);
}

#[test]
fn carriage_returns_before_line_feeds_do_not_count() {
    let event = state_changed("t", TaskState::Working);
    let chunk = format!("data: {}\r\ndata: [DONE]\r\n", event.to_json().to_text().unwrap());
    let mut decoder = SseDecoder::new();
    assert_eq!(decoder.feed(chunk.as_bytes()), vec![Ok(event)]);
    assert!(decoder.is_done());
}

#[test]
fn finish_reads_a_last_line_without_a_line_feed() {
    let event = state_changed("t", TaskState::Canceled);
    let text = format!("data: {}", event.to_json().to_text().unwrap());
    let mut decoder = SseDecoder::new();
    assert_eq!(decoder.feed(text.as_bytes()), vec![]);
    assert_eq!(decoder.pending, text.as_bytes());
    assert_eq!(decoder.finish(), vec![Ok(event)]);
    assert!(decoder.is_done());
    assert!(decoder.pending.is_empty());

    let mut decoder = SseDecoder::new();
    decoder.feed(b"data: [DONE]");
    assert_eq!(decoder.finish(), vec![]);
    let mut decoder = SseDecoder::new();
    decoder.feed(b"event: x");
    assert_eq!(decoder.finish(), vec![]);
    assert_eq!(SseDecoder::new().finish(), vec![]);
}

#[test]
fn empty_chunks_change_nothing() {
    let mut decoder = SseDecoder::new();
    assert_eq!(decoder.feed(b""), vec![]);
    decoder.feed(b"data: par");
    assert_eq!(decoder.feed(b""), vec![]);
    assert_eq!(decoder.pending, b"data: par");
}

#[test]
fn reading_single_lines() {
    assert_eq!(read_line(b""), SseLine::Skip);
    assert_eq!(read_line(b"data:"), SseLine::Skip);
    assert_eq!(read_line(b"data: [DONE]"), SseLine::Done);
    assert!(matches!(read_line(b"data: [DONE] "), SseLine::Item(Err(_))));
    assert!(matches!(read_line(b"data: "), SseLine::Item(Err(_))));
    let event = state_changed("t", TaskState::Working);
    let line = format!("data: {}", event.to_json().to_text().unwrap());
    assert_eq!(read_line(line.as_bytes()), SseLine::Item(Ok(event)));
}

#[test]
fn bytes_that_are_no_utf8_are_replaced() {
    let mut line = b"data: {\"type\": \"artifactChunk\", \"task_id\": \"t\", \"artifact_id\": \"a\", \"chunk\": \"".to_vec();
    line.extend_from_slice(&[0xff, 0x41]);
    line.extend_from_slice(b"\"}");
    assert_eq!(
        read_line(&line),
        SseLine::Item(Ok(TaskEvent::ArtifactChunk {
            task_id: "t".into(),
            artifact_id: "a".into(),
            chunk: "\u{fffd}A".into(),
        }))
    );
}

#[test]
fn parse_sse_event_reads_one_payload() {
    let event = state_changed("t-1", TaskState::InputRequired);
    assert_eq!(parse_sse_event(&event.to_json().to_text().unwrap()), Ok(event));
    assert!(matches!(parse_sse_event("nope"), Err(A2AError::StreamingError(_))));
    assert_eq!(
        parse_sse_event("[1, 2]"),
        Err(A2AError::StreamingError("Failed to parse SSE event: not a task event".into()))
    );
    assert!(Json::parse("nope").is_err());
}

#[test]
fn event_type_names() {
    assert_eq!(event_types::STATE_CHANGED, "state_changed");
    assert_eq!(event_types::MESSAGE_ADDED, "message_added");
    assert_eq!(event_types::ARTIFACT_ADDED, "artifact_added");
    assert_eq!(event_types::ARTIFACT_CHUNK, "artifact_chunk");
    assert_eq!(event_types::DONE, "done");
}

#[test]
fn the_reader_s_reports_are_taken_one_by_one() {
    let event = state_changed("t-1", TaskState::Working);
    let line = line_of(&event);
    let (head, tail) = line.as_bytes().split_at(7);
    let mut decoder = SseDecoder::new();
    assert_eq!(decoder.step(StreamEvent::Chunk(head.to_vec())), (vec![], true));
    assert_eq!(
        decoder.step(StreamEvent::ReadFailed("reset".into())),
        (vec![Err(A2AError::StreamingError("Stream read error: reset".into()))], true)
    );
    assert_eq!(decoder.step(StreamEvent::Chunk(tail.to_vec())), (vec![Ok(event.clone())], true));
    assert_eq!(decoder.step(StreamEvent::Chunk(b"data: [DONE]\nignored".to_vec())), (vec![], false));
    assert!(decoder.is_done());
    assert_eq!(decoder.step(StreamEvent::Chunk(line.clone().into_bytes())), (vec![], false));
    assert_eq!(decoder.step(StreamEvent::ReadFailed("late".into())), (vec![], false));
    assert_eq!(decoder.step(StreamEvent::Ended), (vec![], false));

    let mut cut = SseDecoder::new();
    let unended = line.trim_end().as_bytes().to_vec();
    assert_eq!(cut.step(StreamEvent::Chunk(unended)), (vec![], true));
    assert_eq!(cut.step(StreamEvent::Ended), (vec![Ok(event)], false));
    assert!(cut.is_done());
}
