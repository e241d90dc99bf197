use llmur::chat_stream::{
    chunk_action, filter_chunk_event, stream_event_data, transform_finish_reason, usage_from_counts,
    ChunkAction, StreamEventData, UsageLogGate,
};
use llmur::gemini_stream::{
    extract_candidate_delta, GeminiCandidate, GeminiChunkBuilder, GeminiFunctionCall, GeminiPart,
    GeminiStreamResponse,
};
use llmur::responses_stream::{
    default_tool_choice, event_name, passthrough_log_entry, response_usage, responses_event_frame,
    GeminiResponsesChunk, GeminiUsageMetadata, IncompleteReason, PassthroughEvent,
    PassthroughEventKind, ResponseStatus, ResponsesStreamBuilder, ResponsesStreamEvent,
    StreamLogEntry, ToolChoiceMode,
};
use llmur::sse::{event_data, replace_crlf_str, sse_frame, SseBuffer};

fn text_part(t: &str) -> GeminiPart {
    GeminiPart { text: Some(t.to_string()), function_call: None }
}

fn call_part(name: &str, args: &str) -> GeminiPart {
    GeminiPart {
        text: None,
        function_call: Some(GeminiFunctionCall { name: name.to_string(), args_json: args.to_string() }),
    }
}

fn candidate(index: Option<u64>, parts: Vec<GeminiPart>, finish: Option<&str>) -> GeminiCandidate {
    GeminiCandidate { index, parts: Some(parts), finish_reason: finish.map(|s| s.to_string()) }
}

#[test]
fn crlf_is_normalised() {
    assert_eq!(replace_crlf_str("a\r\nb\r\n\r\n"), "a\nb\n\n");
    assert_eq!(replace_crlf_str("a\rb\n"), "a\rb\n");
    assert_eq!(replace_crlf_str("\r\r\n"), "\r\n");
}

#[test]
fn buffer_yields_events_at_blank_lines() {
    let mut b = SseBuffer::new();
    assert_eq!(b.next_event(), None);
    b.push_text("data: one\r\n");
    assert_eq!(b.next_event(), None);
    b.push_text("\r\ndata: two\n\ndata: thr");
    assert_eq!(b.next_event(), Some("data: one".to_string()));
    assert_eq!(b.next_event(), Some("data: two".to_string()));
    assert_eq!(b.next_event(), None);
    b.push_bytes(b"ee\n\n");
    assert_eq!(b.next_event(), Some("data: three".to_string()));
    assert_eq!(b.next_event(), None);
}

#[test]
fn buffer_joins_a_crlf_split_across_chunks() {
    let mut b = SseBuffer::new();
    b.push_text("data: x\r");
    b.push_text("\n\r\n");
    assert_eq!(b.next_event(), Some("data: x".to_string()));
}

#[test]
fn buffer_replaces_invalid_utf8() {
    let mut b = SseBuffer::new();
    b.push_bytes(b"data: a\xffb\n\n");
    assert_eq!(b.next_event(), Some("data: a\u{FFFD}b".to_string()));
}

#[test]
fn event_data_joins_data_lines() {
    assert_eq!(event_data("data: a\ndata:b\nid: 3"), Some("a\nb".to_string()));
    assert_eq!(event_data("event: ping"), None);
    assert_eq!(event_data("data: [DONE]"), Some("[DONE]".to_string()));
    assert_eq!(event_data("data:"), Some(String::new()));
}

#[test]
fn frame_reads_back_through_a_buffer() {
    let payload = "{\"id\":\"x\"}";
    let frame = sse_frame(payload);
    assert_eq!(frame, "data: {\"id\":\"x\"}\n\n");
    let mut b = SseBuffer::new();
    b.push_text(&frame);
    let event = b.next_event().unwrap();
    assert_eq!(event_data(&event), Some(payload.to_string()));
    assert_eq!(b.next_event(), None);
}

#[test]
fn chunk_actions() {
    assert_eq!(chunk_action(true, true, false, false, true), ChunkAction::Drop);
    assert_eq!(chunk_action(true, true, false, false, false), ChunkAction::Forward);
    assert_eq!(chunk_action(true, false, true, false, false), ChunkAction::DropAndLogUsage);
    assert_eq!(chunk_action(true, false, true, true, true), ChunkAction::ForwardAndLogUsage);
    assert_eq!(chunk_action(false, false, true, false, false), ChunkAction::Forward);
}

#[test]
fn usage_counts() {
    assert_eq!(usage_from_counts(Some(10), Some(5), Some(99)), Some((10, 5)));
    assert_eq!(usage_from_counts(Some(10), None, Some(25)), Some((10, 15)));
    assert_eq!(usage_from_counts(Some(10), None, None), None);
    assert_eq!(usage_from_counts(None, Some(5), Some(15)), None);
    assert_eq!(usage_from_counts(Some(i64::MAX), None, Some(i64::MIN)), Some((i64::MAX, i64::MIN)));
    assert_eq!(usage_from_counts(Some(-1), None, Some(i64::MAX)), Some((-1, i64::MAX)));
}

#[test]
fn usage_log_is_sent_once() {
    let mut g = UsageLogGate::new();
    assert!(g.take());
    assert!(!g.take());
    assert!(!g.take());
}

#[test]
fn finish_reasons() {
    assert_eq!(transform_finish_reason(Some("STOP".to_string())), Some("stop".to_string()));
    assert_eq!(transform_finish_reason(Some("stop".to_string())), Some("stop".to_string()));
    assert_eq!(transform_finish_reason(Some("MAX_TOKENS".to_string())), Some("length".to_string()));
    assert_eq!(transform_finish_reason(Some("Safety".to_string())), Some("content_filter".to_string()));
    assert_eq!(
        transform_finish_reason(Some("RECITATION".to_string())),
        Some("content_filter".to_string())
    );
    assert_eq!(transform_finish_reason(Some("OTHER_Thing".to_string())), Some("other_thing".to_string()));
    assert_eq!(transform_finish_reason(None), None);
}

#[test]
fn candidate_delta_collects_text_and_calls() {
    let c = candidate(None, vec![text_part("Hel"), call_part("f", "{}"), text_part("lo")], None);
    let (content, calls) = extract_candidate_delta(&c, 2);
    assert_eq!(content, Some("Hello".to_string()));
    let calls = calls.unwrap();
    assert_eq!(calls.len(), 1);
    assert_eq!(calls[0].id, "gemini-call-2-1");
    assert_eq!(calls[0].tool_type, "function");
    assert_eq!(calls[0].name, "f");
    assert_eq!(calls[0].arguments, "{}");
    let empty = GeminiCandidate { index: None, parts: None, finish_reason: None };
    let (c2, t2) = extract_candidate_delta(&empty, 0);
    assert!(c2.is_none() && t2.is_none());
}

#[test]
fn gemini_builder_announces_role_once_per_index() {
    let mut b = GeminiChunkBuilder::new("gemini-pro".to_string());
    let first = GeminiStreamResponse {
        candidates: Some(vec![candidate(None, vec![text_part("Hi")], None)]),
        response_id: Some("resp-1".to_string()),
        model_version: None,
    };
    let chunk = b.build_chunk(&first).unwrap();
    assert_eq!(chunk.id, "resp-1");
    assert_eq!(chunk.object, "chat.completion.chunk");
    assert_eq!(chunk.created, 0);
    assert_eq!(chunk.model, "gemini-pro");
    assert_eq!(chunk.choices.len(), 1);
    assert_eq!(chunk.choices[0].index, 0);
    assert_eq!(chunk.choices[0].delta.role, Some("assistant".to_string()));
    assert_eq!(chunk.choices[0].delta.content, Some("Hi".to_string()));

    let second = GeminiStreamResponse {
        candidates: Some(vec![candidate(None, vec![text_part(" there")], Some("STOP"))]),
        response_id: None,
        model_version: Some("gemini-1.5".to_string()),
    };
    let chunk = b.build_chunk(&second).unwrap();
    assert_eq!(chunk.id, "gemini");
    assert_eq!(chunk.model, "gemini-1.5");
    assert_eq!(chunk.choices[0].delta.role, None);
    assert_eq!(chunk.choices[0].finish_reason, Some("stop".to_string()));

    let nothing = GeminiStreamResponse {
        candidates: Some(vec![candidate(Some(0), vec![], None)]),
        response_id: None,
        model_version: None,
    };
    assert!(b.build_chunk(&nothing).is_none());
    let none = GeminiStreamResponse { candidates: None, response_id: None, model_version: None };
    assert!(b.build_chunk(&none).is_none());
}

#[test]
fn usage_from_gemini_counts() {
    let u = GeminiUsageMetadata {
        prompt_token_count: Some(7),
        candidates_token_count: Some(5),
        total_token_count: None,
        cached_content_token_count: Some(2),
        thoughts_token_count: None,
    };
    let r = response_usage(&u);
    assert_eq!(r.input_tokens, 7);
    assert_eq!(r.output_tokens, 5);
    assert_eq!(r.total_tokens, 12);
    assert_eq!(r.cached_tokens, 2);
    assert_eq!(r.reasoning_tokens, 0);
    let t = GeminiUsageMetadata { total_token_count: Some(20), ..u };
    assert_eq!(response_usage(&t).total_tokens, 20);
}

#[test]
fn responses_frames_and_defaults() {
    assert_eq!(responses_event_frame("response.created", "{}"), "event: response.created\ndata: {}\n\n");
    assert_eq!(default_tool_choice(0), ToolChoiceMode::NoTool);
    assert_eq!(default_tool_choice(3), ToolChoiceMode::Auto);
}

#[test]
fn responses_builder_runs_a_stream() {
    let mut b = ResponsesStreamBuilder::new(None);
    let chunk = GeminiResponsesChunk {
        response_id: Some("r1".to_string()),
        usage: Some(GeminiUsageMetadata {
            prompt_token_count: Some(3),
            candidates_token_count: Some(4),
            total_token_count: None,
            cached_content_token_count: None,
            thoughts_token_count: None,
        }),
        block_reason: None,
        candidates: Some(vec![candidate(None, vec![text_part("ab"), call_part("g", "{\"x\":1}")], None)]),
    };
    let events = b.process(&chunk);
    assert_eq!(events.len(), 2);
    assert_eq!(event_name(&events[0]), "response.created");
    match &events[0] {
        ResponsesStreamEvent::Created(s) => {
            assert_eq!(s.id, "r1");
            assert_eq!(s.status, ResponseStatus::InProgress);
            assert_eq!(s.model, "gemini");
            assert_eq!(s.output_text, None);
        }
        other => panic!("unexpected {:?}", other),
    }
    match &events[1] {
        ResponsesStreamEvent::TextDelta { item_id, output_index, content_index, delta } => {
            assert_eq!(item_id, "gemini-msg-r1");
            assert_eq!(*output_index, 0);
            assert_eq!(*content_index, 0);
            assert_eq!(delta, "ab");
        }
        other => panic!("unexpected {:?}", other),
    }
    assert_eq!(event_name(&events[1]), "response.output_text.delta");
    let more = b.process(&GeminiResponsesChunk {
        response_id: None,
        usage: None,
        block_reason: None,
        candidates: Some(vec![candidate(None, vec![text_part("c"), call_part("g", "{}")], Some("MAX_TOKENS"))]),
    });
    assert_eq!(more.len(), 1);
    let (event, log) = b.finish();
    match event.unwrap() {
        ResponsesStreamEvent::Incomplete(s) => {
            assert_eq!(s.status, ResponseStatus::Incomplete);
            assert_eq!(s.output_text, Some("abc".to_string()));
            assert_eq!(s.tool_calls.len(), 1);
            assert_eq!(s.tool_calls[0].call_id, "gemini-call-0-1");
            assert_eq!(s.incomplete_reason, Some(IncompleteReason::MaxOutputTokens));
            assert_eq!(s.usage.unwrap().total_tokens, 7);
            assert_eq!(s.message_id, "gemini-msg-r1");
        }
        other => panic!("unexpected {:?}", other),
    }
    assert_eq!(
        log,
        Some(StreamLogEntry {
            input_tokens: Some(3),
            output_tokens: Some(4),
            error: Some("incomplete: MaxOutputTokens".to_string()),
        })
    );
    let (again, again_log) = b.finish();
    assert!(again.is_none() && again_log.is_none());
    assert_eq!(b.fail_log(), None);
}

#[test]
fn responses_builder_blocked_prompt_fails() {
    let mut b = ResponsesStreamBuilder::new(Some("gemini-2".to_string()));
    let events = b.process(&GeminiResponsesChunk {
        response_id: None,
        usage: None,
        block_reason: Some("SAFETY".to_string()),
        candidates: None,
    });
    assert_eq!(events.len(), 1);
    let (event, log) = b.finish();
    match event.unwrap() {
        ResponsesStreamEvent::Failed(s) => {
            assert_eq!(s.error_message, Some("Prompt blocked: SAFETY".to_string()));
            assert_eq!(s.model, "gemini-2");
            assert_eq!(s.id, "gemini");
        }
        other => panic!("unexpected {:?}", other),
    }
    assert_eq!(log.unwrap().error, Some("InvalidPrompt: Prompt blocked: SAFETY".to_string()));
}

#[test]
fn responses_builder_fail_log_once() {
    let mut b = ResponsesStreamBuilder::new(None);
    assert_eq!(
        b.fail_log(),
        Some(StreamLogEntry { input_tokens: None, output_tokens: None, error: None })
    );
    assert_eq!(b.fail_log(), None);
    let (event, log) = b.finish();
    assert!(matches!(event, Some(ResponsesStreamEvent::Completed(_))));
    assert!(log.is_none());
}

#[test]
fn passthrough_logs() {
    let ev = |kind, usage, error_text: Option<&str>, reason: Option<&str>, message: Option<&str>| {
        PassthroughEvent {
            kind,
            usage,
            error_text: error_text.map(|s| s.to_string()),
            incomplete_reason: reason.map(|s| s.to_string()),
            message: message.map(|s| s.to_string()),
        }
    };
    assert_eq!(
        passthrough_log_entry(&ev(PassthroughEventKind::Completed, Some((1, 2)), None, None, None)),
        Some(StreamLogEntry { input_tokens: Some(1), output_tokens: Some(2), error: None })
    );
    assert_eq!(
        passthrough_log_entry(&ev(PassthroughEventKind::Failed, None, None, None, None)).unwrap().error,
        Some("response failed".to_string())
    );
    assert_eq!(
        passthrough_log_entry(&ev(PassthroughEventKind::Incomplete, None, None, Some("max_output_tokens"), None))
            .unwrap()
            .error,
        Some("incomplete: max_output_tokens".to_string())
    );
    assert_eq!(
        passthrough_log_entry(&ev(PassthroughEventKind::Incomplete, None, None, None, None)).unwrap().error,
        Some("response incomplete".to_string())
    );
    assert_eq!(
        passthrough_log_entry(&ev(PassthroughEventKind::Error, Some((1, 1)), None, None, Some("boom"))),
        Some(StreamLogEntry { input_tokens: None, output_tokens: None, error: Some("boom".to_string()) })
    );
    assert_eq!(passthrough_log_entry(&ev(PassthroughEventKind::Other, None, None, None, None)), None);
}

#[test]
fn stream_event_data_tells_skip_done_and_data_apart() {
    assert!(matches!(stream_event_data("event: ping"), StreamEventData::Skip));
    assert!(matches!(stream_event_data("data: [DONE]"), StreamEventData::Done));
    match stream_event_data("data: {\"a\":1}") {
        StreamEventData::Data(d) => assert_eq!(d, "{\"a\":1}"),
        _ => panic!("expected data"),
    }
}

#[test]
fn filter_chunk_event_skips_events_without_data() {
    let mut gate = UsageLogGate::new();
    assert_eq!(filter_chunk_event(&mut gate, ": keep-alive", false, false), (None, None));
}

#[test]
fn filter_chunk_event_forwards_done_marker() {
    let mut gate = UsageLogGate::new();
    assert_eq!(
        filter_chunk_event(&mut gate, "data: [DONE]", false, true),
        (Some("data: [DONE]\n\n".to_string()), None)
    );
}

#[test]
fn filter_chunk_event_forwards_non_json_data_unchanged() {
    let mut gate = UsageLogGate::new();
    assert_eq!(
        filter_chunk_event(&mut gate, "data: not json at all", false, false),
        (Some("data: not json at all\n\n".to_string()), None)
    );
}

#[test]
fn filter_chunk_event_reserializes_json_chunk_compactly() {
    let mut gate = UsageLogGate::new();
    let event = "data: {\"choices\": [{\"delta\": {\"content\": \"hi\"}, \"index\": 0}], \"id\": \"c1\"}";
    assert_eq!(
        filter_chunk_event(&mut gate, event, false, false),
        (
            Some("data: {\"choices\":[{\"delta\":{\"content\":\"hi\"},\"index\":0}],\"id\":\"c1\"}\n\n".to_string()),
            None
        )
    );
}

#[test]
fn filter_chunk_event_drops_azure_prompt_filter_chunk() {
    let event = "data: {\"choices\":[],\"prompt_filter_results\":[{\"prompt_index\":0}]}";
    let mut gate = UsageLogGate::new();
    assert_eq!(filter_chunk_event(&mut gate, event, false, true), (None, None));
    let mut gate = UsageLogGate::new();
    assert_eq!(
        filter_chunk_event(&mut gate, event, false, false),
        (
            Some("data: {\"choices\":[],\"prompt_filter_results\":[{\"prompt_index\":0}]}\n\n".to_string()),
            None
        )
    );
}

#[test]
fn filter_chunk_event_logs_usage_once_and_hides_unrequested_usage_chunk() {
    let event = "data: {\"choices\":[],\"usage\":{\"completion_tokens\":4,\"prompt_tokens\":3,\"total_tokens\":7}}";
    let mut gate = UsageLogGate::new();
    assert_eq!(
        filter_chunk_event(&mut gate, event, false, false),
        (None, Some((Some(3), Some(4))))
    );
    assert_eq!(filter_chunk_event(&mut gate, event, false, false), (None, None));
}

#[test]
fn filter_chunk_event_forwards_requested_usage_chunk_and_logs_it() {
    let event = "data: {\"choices\":[],\"usage\":{\"completion_tokens\":4,\"prompt_tokens\":3,\"total_tokens\":7}}";
    let mut gate = UsageLogGate::new();
    assert_eq!(
        filter_chunk_event(&mut gate, event, true, false),
        (
            Some("data: {\"choices\":[],\"usage\":{\"completion_tokens\":4,\"prompt_tokens\":3,\"total_tokens\":7}}\n\n".to_string()),
            Some((Some(3), Some(4)))
        )
    );
}
