use llm_stream::buffer::ChunkBuffer;
use llm_stream::messages::{MessageStreamDecoder, StreamMessage};
use llm_stream::framing::Framing;
use llm_stream::normalize::{FinishCode, NormalizedEvent, StreamErrorKind};
use llm_stream::pipeline::StreamDecoder;
use llm_stream::task::{StreamTask, TaskAction};
use llm_stream::types::{FinishReason, Usage};

const MAX_LINE: usize = 1 << 20;

fn run(framing: Framing, chunks: &[&[u8]]) -> Vec<NormalizedEvent> {
    let mut d = StreamDecoder::new(framing, MAX_LINE);
    let mut out = Vec::new();
    for c in chunks {
        out.extend(d.feed(c));
    }
    out.extend(d.finish());
    out
}

fn delta(s: &str) -> NormalizedEvent {
    NormalizedEvent::ContentDelta(s.to_string())
}

#[test]
fn scenario_sse_typed() {
    let input: &[&[u8]] = &[
        b"data: {\"type\":\"content_block_delta\",\"delta\":{\"type\":\"text_delta\",\"text\":\"Hi\"}}\n",
        b"data: {\"type\":\"message_stop\"}\n",
    ];
    assert_eq!(run(Framing::SseTyped, input), vec![delta("Hi"), NormalizedEvent::StreamEnd]);
}

#[test]
fn scenario_ndjson() {
    let input: &[&[u8]] = &[
        b"{\"message\":{\"content\":\"Hi\"},\"done\":false}\n",
        b"{\"message\":{\"content\":\"\"},\"done\":true}\n",
    ];
    assert_eq!(run(Framing::Ndjson, input), vec![delta("Hi"), NormalizedEvent::StreamEnd]);
}

#[test]
fn scenario_sse_plain() {
    let input: &[&[u8]] = &[
        b"data: {\"choices\":[{\"delta\":{\"content\":\"Hi\"}}]}\n\n",
        b"data: [DONE]\n\n",
    ];
    assert_eq!(run(Framing::SsePlain, input), vec![delta("Hi"), NormalizedEvent::StreamEnd]);
}

#[test]
fn scenario_cancellation() {
    let mut task = StreamTask::new(Framing::SsePlain, MAX_LINE);
    assert_eq!(task.next_action(), TaskAction::Read);
    task.on_chunk(
        b"data: {\"choices\":[{\"delta\":{\"content\":\"Hi\"}}]}\n\ndata: {\"choices\":[{\"delta\":{\"content\":\" there\"}}]}\n\n",
    );
    assert_eq!(task.next_action(), TaskAction::Deliver(delta("Hi")));
    // The consumer drops its handle: the next delivery fails.
    task.on_consumer_gone();
    assert_eq!(task.next_action(), TaskAction::Exit);
    task.on_chunk(b"data: {\"choices\":[{\"delta\":{\"content\":\"more\"}}]}\n\n");
    task.on_end();
    assert_eq!(task.next_action(), TaskAction::Exit);
}

#[test]
fn task_exits_after_terminal_event() {
    let mut task = StreamTask::new(Framing::Ndjson, MAX_LINE);
    task.on_chunk(b"{\"response\":\"a\",\"done\":false}\n{\"response\":\"b\",\"done\":true}\n");
    assert_eq!(task.next_action(), TaskAction::Deliver(delta("a")));
    assert_eq!(task.next_action(), TaskAction::Deliver(delta("b")));
    assert_eq!(task.next_action(), TaskAction::Deliver(NormalizedEvent::StreamEnd));
    assert_eq!(task.next_action(), TaskAction::Exit);
}

#[test]
fn chunking_does_not_change_events() {
    let payload = "data: {\"choices\":[{\"delta\":{\"content\":\"héllo wörld ✓\"}}]}\n\ndata: {\"choices\":[{\"delta\":{\"content\":\"!\"},\"finish_reason\":\"stop\"}]}\n\ndata: [DONE]\n\n"
        .as_bytes();
    let whole = run(Framing::SsePlain, &[payload]);
    let bytes: Vec<&[u8]> = payload.chunks(1).collect();
    let one_by_one = run(Framing::SsePlain, &bytes);
    // Split inside the two bytes of 'é'.
    let at = payload.iter().position(|&b| b == 0xC3).unwrap() + 1;
    let split = run(Framing::SsePlain, &[&payload[..at], &payload[at..]]);
    assert_eq!(
        whole,
        vec![
            delta("héllo wörld ✓"),
            delta("!"),
            NormalizedEvent::FinishReason(FinishCode::Known(FinishReason::Stop)),
            NormalizedEvent::StreamEnd,
        ]
    );
    assert_eq!(whole, one_by_one);
    assert_eq!(whole, split);
}

#[test]
fn events_keep_frame_order() {
    let input: &[&[u8]] = &[b"{\"response\":\"1\"}\n{\"response\":\"2\"}\n{\"response\":\"3\"}\n"];
    assert_eq!(
        run(Framing::Ndjson, input),
        vec![delta("1"), delta("2"), delta("3"), NormalizedEvent::StreamEnd]
    );
}

#[test]
fn malformed_frame_is_skipped() {
    let input: &[&[u8]] = &[
        b"data: {\"choices\":[{\"delta\":{\"content\":\"a\"}}]}\n",
        b"data: {not json\n",
        b"data: {\"choices\":[{\"delta\":{\"content\":\"b\"}}]}\n",
    ];
    let mut d = StreamDecoder::new(Framing::SsePlain, MAX_LINE);
    let mut out = Vec::new();
    for c in input {
        out.extend(d.feed(c));
    }
    assert_eq!(out, vec![delta("a"), delta("b")]);
    assert!(!d.is_done());
}

#[test]
fn nothing_after_terminal_event() {
    let mut d = StreamDecoder::new(Framing::SseTyped, MAX_LINE);
    let first = d.feed(b"event: message_stop\ndata: {\"type\":\"content_block_delta\",\"delta\":{\"type\":\"text_delta\",\"text\":\"late\"}}\n");
    assert_eq!(first, vec![NormalizedEvent::StreamEnd]);
    assert!(d.is_done());
    assert!(d.feed(b"data: {\"type\":\"message_stop\"}\n").is_empty());
    assert!(d.finish().is_empty());
    assert!(d.fail("gone".to_string()).is_empty());
}

#[test]
fn provider_error_ends_stream() {
    let input: &[&[u8]] = &[
        b"event: error\n",
        b"data: {\"type\":\"error\",\"error\":{\"type\":\"overloaded_error\",\"message\":\"Overloaded\"}}\n",
        b"data: {\"type\":\"message_stop\"}\n",
    ];
    assert_eq!(
        run(Framing::SseTyped, input),
        vec![NormalizedEvent::StreamError(StreamErrorKind::Provider, Some("Overloaded".to_string()))]
    );
}

#[test]
fn transport_failure_ends_stream() {
    let mut d = StreamDecoder::new(Framing::Ndjson, MAX_LINE);
    assert_eq!(d.feed(b"{\"response\":\"par"), vec![]);
    assert_eq!(
        d.fail("connection reset".to_string()),
        vec![NormalizedEvent::StreamError(
            StreamErrorKind::Network,
            Some("connection reset".to_string())
        )]
    );
    assert!(d.finish().is_empty());
}

#[test]
fn overlong_line_is_fatal() {
    let mut d = StreamDecoder::new(Framing::Ndjson, 8);
    assert_eq!(d.feed(b"{\"a\":1}\n"), vec![]);
    assert_eq!(
        d.feed(b"123456789"),
        vec![NormalizedEvent::StreamError(StreamErrorKind::ResourceExhausted, None)]
    );
    assert!(d.is_done());
}

#[test]
fn last_unterminated_line_is_read_at_end() {
    let input: &[&[u8]] = &[b"{\"response\":\"x\",\"done\":true}"];
    assert_eq!(run(Framing::Ndjson, input), vec![delta("x"), NormalizedEvent::StreamEnd]);
}

#[test]
fn ndjson_final_frame_carries_usage_and_reason() {
    let input: &[&[u8]] = &[
        b"{\"message\":{\"content\":\"\"},\"done\":true,\"done_reason\":\"length\",\"prompt_eval_count\":5,\"eval_count\":3}\n",
    ];
    assert_eq!(
        run(Framing::Ndjson, input),
        vec![
            NormalizedEvent::UsageFinal(Usage { prompt_tokens: 5, completion_tokens: 3, total_tokens: 8 }),
            NormalizedEvent::FinishReason(FinishCode::Known(FinishReason::Length)),
            NormalizedEvent::StreamEnd,
        ]
    );
}

#[test]
fn typed_stream_with_usage_and_tool_fragment() {
    let input: &[&[u8]] = &[
        b"event: ping\ndata: {\"type\":\"ping\"}\n\n",
        b"data: {\"type\":\"content_block_delta\",\"index\":1,\"delta\":{\"type\":\"input_json_delta\",\"partial_json\":\"{\\\"a\\\":\"}}\n",
        b"data: {\"type\":\"message_delta\",\"delta\":{\"stop_reason\":\"tool_use\"},\"usage\":{\"output_tokens\":15}}\n",
        b"data: {\"type\":\"message_stop\"}\n",
    ];
    assert_eq!(
        run(Framing::SseTyped, input),
        vec![
            NormalizedEvent::ToolCallDelta("{\"a\":".to_string()),
            NormalizedEvent::UsageFinal(Usage { prompt_tokens: 0, completion_tokens: 15, total_tokens: 15 }),
            NormalizedEvent::FinishReason(FinishCode::Known(FinishReason::ToolCalls)),
            NormalizedEvent::StreamEnd,
        ]
    );
}

#[test]
fn unknown_finish_code_is_kept() {
    let input: &[&[u8]] = &[
        b"data: {\"choices\":[{\"delta\":{},\"finish_reason\":\"odd\"}],\"usage\":{\"prompt_tokens\":1,\"completion_tokens\":2,\"total_tokens\":3}}\n",
        b"data: [DONE]\n",
    ];
    assert_eq!(
        run(Framing::SsePlain, input),
        vec![
            NormalizedEvent::UsageFinal(Usage { prompt_tokens: 1, completion_tokens: 2, total_tokens: 3 }),
            NormalizedEvent::FinishReason(FinishCode::Unrecognized("odd".to_string())),
            NormalizedEvent::StreamEnd,
        ]
    );
}

#[test]
fn stream_ends_at_end_of_data() {
    let input: &[&[u8]] = &[b": comment\nid: 1\ndata: {\"choices\":[]}\n"];
    assert_eq!(run(Framing::SsePlain, input), vec![NormalizedEvent::StreamEnd]);
}

#[test]
fn chunk_buffer_keeps_partial_line() {
    let mut b = ChunkBuffer::new();
    assert_eq!(b.append(b"ab\ncd"), vec![b"ab".to_vec()]);
    assert_eq!(b.pending_len(), 2);
    assert_eq!(b.append(b"e\n\nf"), vec![b"cde".to_vec(), Vec::new()]);
    assert_eq!(b.pending_len(), 1);
}

#[test]
fn rpc_messages_map_to_events() {
    let mut d = MessageStreamDecoder::new();
    let first = d.on_message(StreamMessage {
        content: "Hi".to_string(),
        is_final: false,
        usage: None,
        finish_reason: None,
    });
    assert_eq!(first, vec![delta("Hi")]);
    let last = d.on_message(StreamMessage {
        content: String::new(),
        is_final: true,
        usage: Some(Usage { prompt_tokens: 1, completion_tokens: 1, total_tokens: 2 }),
        finish_reason: Some(2),
    });
    assert_eq!(
        last,
        vec![
            NormalizedEvent::UsageFinal(Usage { prompt_tokens: 1, completion_tokens: 1, total_tokens: 2 }),
            NormalizedEvent::FinishReason(FinishCode::Known(FinishReason::Length)),
            NormalizedEvent::StreamEnd,
        ]
    );
    assert!(d.is_done());
    assert!(d.on_end().is_empty());
    assert!(d.on_error("late".to_string()).is_empty());
}

#[test]
fn rpc_stream_failure() {
    let mut d = MessageStreamDecoder::new();
    assert_eq!(
        d.on_error("unavailable".to_string()),
        vec![NormalizedEvent::StreamError(StreamErrorKind::Network, Some("unavailable".to_string()))]
    );
}

#[test]
fn invalid_utf8_is_replaced() {
    let input: &[&[u8]] = &[b"{\"response\":\"a\xff\"}\n"];
    // The byte 0xFF inside a JSON string makes the line's text hold U+FFFD.
    assert_eq!(run(Framing::Ndjson, input), vec![delta("a\u{FFFD}"), NormalizedEvent::StreamEnd]);
}

#[test]
fn crlf_lines_are_trimmed() {
    let input: &[&[u8]] = &[
        b"data: {\"choices\":[{\"delta\":{\"content\":\"Hi\"}}]}\r\n\r\n",
        b"data: [DONE]\r\n",
        b"data: {\"choices\":[{\"delta\":{\"content\":\"late\"}}]}\r\n",
    ];
    assert_eq!(run(Framing::SsePlain, input), vec![delta("Hi"), NormalizedEvent::StreamEnd]);
}
