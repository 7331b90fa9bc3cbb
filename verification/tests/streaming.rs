use aichat::config::Config;
use aichat::dispatch::{interpret_reply, prepare_request, RequestAction};
use aichat::error::ChatError;
use aichat::role::Role;
use aichat::stream::{
    deliver_echo, fail_before_dispatch, run_events, MemoryHandler, StreamEvent, StreamRun,
    StreamStep,
};

fn chunk(text: &str) -> StreamEvent {
    StreamEvent::Chunk(format!(
        "{{\"choices\":[{{\"delta\":{{\"content\":\"{}\"}}}}]}}",
        text
    ))
}

fn fragments(run: &StreamRun<MemoryHandler>) -> Vec<String> {
    run.handler.fragments.clone()
}

#[test]
fn fragment_ordering_and_single_done() {
    let mut run = StreamRun::new(MemoryHandler::new());
    assert!(matches!(run.on_event(chunk("Hel")), StreamStep::Continue));
    assert!(matches!(run.on_event(chunk("lo")), StreamStep::Continue));
    assert!(matches!(run.on_event(chunk(" world")), StreamStep::Continue));
    match run.on_event(StreamEvent::Chunk("[DONE]".to_string())) {
        StreamStep::Settled(Ok(())) => {}
        other => panic!("expected success, got {:?}", other),
    }
    assert_eq!(fragments(&run), vec!["Hel", "lo", " world"]);
    assert_eq!(run.handler.done_calls, 1);
    assert!(run.settled);
}

#[test]
fn run_events_drives_a_whole_stream() {
    let mut run = StreamRun::new(MemoryHandler::new());
    let events = vec![
        chunk("Hel"),
        chunk("lo"),
        StreamEvent::PollTick,
        chunk(" world"),
        StreamEvent::Chunk("[DONE]".to_string()),
        chunk("never delivered"),
    ];
    match run_events(&mut run, events) {
        Some(Ok(())) => {}
        other => panic!("expected success, got {:?}", other),
    }
    assert_eq!(fragments(&run), vec!["Hel", "lo", " world"]);
    assert_eq!(run.handler.done_calls, 1);
}

#[test]
fn run_events_without_settlement_reports_none() {
    let mut run = StreamRun::new(MemoryHandler::new());
    let events = vec![chunk("a"), StreamEvent::PollTick];
    assert!(run_events(&mut run, events).is_none());
    assert_eq!(run.handler.done_calls, 0);
    assert_eq!(fragments(&run), vec!["a"]);
}

#[test]
fn empty_fragments_are_skipped() {
    let mut run = StreamRun::new(MemoryHandler::new());
    assert!(matches!(run.on_event(chunk("")), StreamStep::Continue));
    assert!(matches!(
        run.on_event(StreamEvent::Chunk("{\"choices\":[]}".to_string())),
        StreamStep::Continue
    ));
    assert!(fragments(&run).is_empty());
    assert_eq!(run.handler.done_calls, 0);
}

#[test]
fn malformed_chunk_is_a_hard_failure() {
    let mut run = StreamRun::new(MemoryHandler::new());
    assert!(matches!(run.on_event(chunk("a")), StreamStep::Continue));
    match run.on_event(StreamEvent::Chunk("not json".to_string())) {
        StreamStep::Settled(Err(ChatError::MalformedResponse)) => {}
        other => panic!("expected malformed response, got {:?}", other),
    }
    assert_eq!(run.handler.done_calls, 1);
    assert_eq!(fragments(&run), vec!["a"]);
}

#[test]
fn abort_settles_and_stops_delivery() {
    let mut run = StreamRun::new(MemoryHandler::new());
    assert!(matches!(run.on_event(StreamEvent::PollTick), StreamStep::Continue));
    assert!(matches!(run.on_event(chunk("partial")), StreamStep::Continue));
    run.request_abort();
    match run.on_event(StreamEvent::PollTick) {
        StreamStep::Settled(Ok(())) => {}
        other => panic!("expected success after abort, got {:?}", other),
    }
    assert_eq!(run.handler.done_calls, 1);
    assert_eq!(fragments(&run), vec!["partial"]);
    assert!(run.settled);
}

#[test]
fn interrupt_returns_without_done() {
    let mut run = StreamRun::new(MemoryHandler::new());
    match run.on_event(StreamEvent::Interrupted) {
        StreamStep::Settled(Ok(())) => {}
        other => panic!("expected success, got {:?}", other),
    }
    assert_eq!(run.handler.done_calls, 0);
    assert!(run.abort.interrupted);
    assert!(!run.abort.explicit_abort);
}

#[test]
fn stream_end_without_sentinel_still_finishes() {
    let mut run = StreamRun::new(MemoryHandler::new());
    match run.on_event(StreamEvent::StreamClosed) {
        StreamStep::Settled(Ok(())) => {}
        other => panic!("expected success, got {:?}", other),
    }
    assert_eq!(run.handler.done_calls, 1);
}

#[test]
fn transport_failure_surfaces_verbatim() {
    let mut run = StreamRun::new(MemoryHandler::new());
    match run.on_event(StreamEvent::StreamFailed("connection reset".to_string())) {
        StreamStep::Settled(Err(ChatError::TransportError(m))) => {
            assert_eq!(m, "connection reset");
        }
        other => panic!("expected transport error, got {:?}", other),
    }
    assert_eq!(run.handler.done_calls, 1);
}

#[test]
fn error_body_yields_api_error_and_done() {
    let mut run = StreamRun::new(MemoryHandler::new());
    let body = "{\"error\":{\"message\":\"insufficient_quota\"}}".to_string();
    match run.on_event(StreamEvent::BadStatus(body)) {
        StreamStep::Settled(Err(ChatError::ApiError(m))) => {
            assert_eq!(m, "insufficient_quota");
        }
        other => panic!("expected api error, got {:?}", other),
    }
    assert_eq!(run.handler.done_calls, 1);
    assert!(fragments(&run).is_empty());
}

#[test]
fn dry_run_echoes_on_both_paths() {
    let mut cfg = Config::new("key");
    cfg.dry_run = true;
    match prepare_request(&cfg, "hi", false) {
        Ok(RequestAction::Echo(e)) => assert_eq!(e, "hi"),
        other => panic!("expected echo, got {:?}", other),
    }
    match prepare_request(&cfg, "hi", true) {
        Ok(RequestAction::Echo(e)) => assert_eq!(e, "hi"),
        other => panic!("expected echo, got {:?}", other),
    }
    let mut handler = MemoryHandler::new();
    deliver_echo(&mut handler, "hi").unwrap();
    assert_eq!(handler.fragments, vec!["hi"]);
    assert_eq!(handler.done_calls, 1);
}

#[test]
fn prepare_request_builds_payload() {
    let mut cfg = Config::new("key");
    cfg.temperature = Some(70);
    cfg.role = Some(Role::new("be brief", None));
    match prepare_request(&cfg, "question", true) {
        Ok(RequestAction::Dispatch(p)) => {
            assert_eq!(p.model, "gpt-3.5-turbo");
            assert!(p.stream);
            assert_eq!(p.temperature, Some(70));
            assert_eq!(p.messages.len(), 2);
            assert_eq!(p.messages[0].content, "be brief");
            assert_eq!(p.messages[1].content, "question");
        }
        other => panic!("expected payload, got {:?}", other),
    }
}

#[test]
fn budget_error_on_streaming_still_signals_done() {
    let cfg = Config::new("key");
    let big = "y".repeat(4097);
    let err = prepare_request(&cfg, &big, true).unwrap_err();
    let mut run = StreamRun::new(MemoryHandler::new());
    match fail_before_dispatch(&mut run, err) {
        Err(ChatError::ExceedsLimit { estimated, limit }) => {
            assert_eq!(estimated, 4097);
            assert_eq!(limit, 4096);
        }
        other => panic!("expected budget rejection, got {:?}", other),
    }
    assert_eq!(run.handler.done_calls, 1);
    assert!(run.handler.fragments.is_empty());
    assert!(run.settled);
}

#[test]
fn prepare_request_enforces_budget_before_dispatch() {
    let cfg = Config::new("key");
    let big = "y".repeat(4097);
    match prepare_request(&cfg, &big, false) {
        Err(ChatError::ExceedsLimit { estimated, limit }) => {
            assert_eq!(estimated, 4097);
            assert_eq!(limit, 4096);
        }
        other => panic!("expected budget rejection, got {:?}", other),
    }
}

#[test]
fn interpret_reply_handles_all_shapes() {
    let ok = "{\"choices\":[{\"message\":{\"content\":\"hello\"}}]}";
    assert_eq!(interpret_reply(ok).unwrap(), "hello");
    let err = "{\"error\":{\"message\":\"insufficient_quota\"}}";
    match interpret_reply(err) {
        Err(ChatError::ApiError(m)) => assert_eq!(m, "insufficient_quota"),
        other => panic!("expected api error, got {:?}", other),
    }
    match interpret_reply("{\"choices\":[]}") {
        Err(ChatError::MalformedResponse) => {}
        other => panic!("expected malformed, got {:?}", other),
    }
    match interpret_reply("junk") {
        Err(ChatError::MalformedResponse) => {}
        other => panic!("expected malformed, got {:?}", other),
    }
}

#[test]
fn io_failure_from_handler_still_triggers_done() {
    let mut handler = MemoryHandler::new();
    handler.fail_delivery = true;
    let mut run = StreamRun::new(handler);
    match run.on_event(chunk("x")) {
        StreamStep::Settled(Err(ChatError::IoError)) => {}
        other => panic!("expected io error, got {:?}", other),
    }
    assert_eq!(run.handler.done_calls, 1);
    assert!(run.handler.fragments.is_empty());
}
