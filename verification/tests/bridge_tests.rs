use inference_server::ServerError;
use inference_server::bridge::{StopReason, StreamingBridge, TokenDecision};
use inference_server::channel::RecvOutcome;
use inference_server::model::{Architecture, ModelHolder};
use inference_server::request::CompletionRequest;

fn request(max_tokens: u32) -> CompletionRequest {
    CompletionRequest {
        prompt: "once upon a time".to_string(),
        max_tokens,
        temperature_milli: 700,
        stream: true,
    }
}

fn loaded_holder() -> ModelHolder {
    let mut holder = ModelHolder::new();
    holder
        .apply_load_outcome(Architecture::Llama, Ok(()))
        .unwrap();
    holder
}

fn frame(token: &str) -> Vec<u8> {
    let mut out = b"data: {\"choices\":[{\"text\":\"".to_vec();
    out.extend_from_slice(token.as_bytes());
    out.extend_from_slice(b"\"}]}\n\n");
    out
}

#[test]
fn completion_without_model_fails_before_any_task() {
    let holder = ModelHolder::new();
    let r = StreamingBridge::begin_completion(&holder, &request(4), 1024);
    assert!(matches!(r, Err(ServerError::NoModelLoaded)));
}

#[test]
fn invalid_request_is_rejected() {
    let holder = loaded_holder();
    let mut bad = request(4);
    bad.temperature_milli = -1;
    let r = StreamingBridge::begin_completion(&holder, &bad, 1024);
    assert!(matches!(r, Err(ServerError::InvalidRequest)));
}

#[test]
fn token_events_stop_at_max_tokens() {
    let holder = loaded_holder();
    let mut bridge = StreamingBridge::begin_completion(&holder, &request(3), 1024).unwrap();
    // A stub generation capability that would emit five tokens.
    let tokens = ["t0", "t1", "t2", "t3", "t4"];
    let mut emitted = 0;
    for t in tokens {
        match bridge.on_token(t.as_bytes()) {
            TokenDecision::Sent => emitted += 1,
            TokenDecision::Halt(reason) => {
                assert_eq!(reason, StopReason::MaxTokens);
                break;
            }
            TokenDecision::Retry => panic!("no backpressure expected"),
        }
    }
    assert_eq!(emitted, 3);
    bridge.finish(Ok(()));
    let mut frames = 0;
    loop {
        match bridge.drain() {
            RecvOutcome::Frame(f) => {
                assert_eq!(f, frame(tokens[frames]));
                frames += 1;
            }
            RecvOutcome::Closed => break,
            RecvOutcome::Pending => panic!("stream ended; nothing can be pending"),
        }
    }
    assert_eq!(frames, 3);
}

#[test]
fn delivery_order_matches_generation_order_across_two_streams() {
    let holder = loaded_holder();
    let mut first = StreamingBridge::begin_completion(&holder, &request(8), 4096).unwrap();
    let mut second = StreamingBridge::begin_completion(&holder, &request(8), 4096).unwrap();
    // Interleave the two generation tasks.
    assert_eq!(first.on_token(b"a0"), TokenDecision::Sent);
    assert_eq!(second.on_token(b"b0"), TokenDecision::Sent);
    assert_eq!(first.on_token(b"a1"), TokenDecision::Sent);
    assert_eq!(second.on_token(b"b1"), TokenDecision::Sent);
    assert_eq!(first.on_token(b"a2"), TokenDecision::Sent);
    first.finish(Ok(()));
    second.finish(Ok(()));
    for (bridge, expected) in [
        (&mut first, vec!["a0", "a1", "a2"]),
        (&mut second, vec!["b0", "b1"]),
    ] {
        let mut drained = Vec::new();
        loop {
            match bridge.drain() {
                RecvOutcome::Frame(f) => drained.push(f),
                RecvOutcome::Closed => break,
                RecvOutcome::Pending => panic!("stream ended; nothing can be pending"),
            }
        }
        let expected_frames: Vec<Vec<u8>> = expected.iter().map(|t| frame(t)).collect();
        assert_eq!(drained, expected_frames);
    }
}

#[test]
fn disconnect_stops_token_production() {
    let holder = loaded_holder();
    let mut bridge = StreamingBridge::begin_completion(&holder, &request(100), 4096).unwrap();
    assert_eq!(bridge.on_token(b"before0"), TokenDecision::Sent);
    assert_eq!(bridge.on_token(b"before1"), TokenDecision::Sent);
    bridge.client_disconnected();
    // The next write is refused and the task is told to stop: tokens
    // produced after the disconnect, zero.
    assert_eq!(
        bridge.on_token(b"after"),
        TokenDecision::Halt(StopReason::Disconnected)
    );
}

#[test]
fn oversized_token_frame_halts_the_stream() {
    let holder = loaded_holder();
    // A 16-byte buffer cannot ever hold a 35-byte frame: the write is
    // refused outright and the task is told to stop.
    let mut bridge = StreamingBridge::begin_completion(&holder, &request(10), 16).unwrap();
    assert_eq!(
        bridge.on_token(b"t0"),
        TokenDecision::Halt(StopReason::Oversized)
    );
    let err = bridge.finish(Err("token event exceeds the stream buffer capacity".to_string()));
    assert_eq!(
        err,
        Some(ServerError::GenerationFailed(
            "token event exceeds the stream buffer capacity".to_string()
        ))
    );
    assert_eq!(bridge.drain(), RecvOutcome::Closed);
}

#[test]
fn slow_consumer_causes_backpressure_not_loss() {
    let holder = loaded_holder();
    // Room for one 35-byte frame but not two: the second must wait until
    // the consumer drains.
    let mut bridge = StreamingBridge::begin_completion(&holder, &request(10), 40).unwrap();
    assert_eq!(bridge.on_token(b"t0"), TokenDecision::Sent);
    assert_eq!(bridge.on_token(b"t1"), TokenDecision::Retry);
    match bridge.drain() {
        RecvOutcome::Frame(f) => assert_eq!(f, frame("t0")),
        other => panic!("expected a frame, got {:?}", other),
    }
    assert_eq!(bridge.on_token(b"t1"), TokenDecision::Sent);
    bridge.finish(Ok(()));
    match bridge.drain() {
        RecvOutcome::Frame(f) => assert_eq!(f, frame("t1")),
        other => panic!("expected a frame, got {:?}", other),
    }
    assert_eq!(bridge.drain(), RecvOutcome::Closed);
}

#[test]
fn generation_failure_ends_stream_with_observable_error() {
    let holder = loaded_holder();
    let mut bridge = StreamingBridge::begin_completion(&holder, &request(4), 1024).unwrap();
    assert_eq!(bridge.on_token(b"t0"), TokenDecision::Sent);
    let err = bridge.finish(Err("model tensor mismatch".to_string()));
    assert_eq!(
        err,
        Some(ServerError::GenerationFailed("model tensor mismatch".to_string()))
    );
    match bridge.drain() {
        RecvOutcome::Frame(f) => assert_eq!(f, frame("t0")),
        other => panic!("expected a frame, got {:?}", other),
    }
    assert_eq!(bridge.drain(), RecvOutcome::Closed);
}

#[test]
fn validate_rejects_negative_temperature() {
    let mut r = request(4);
    r.temperature_milli = -200;
    assert_eq!(r.validate(), Err(ServerError::InvalidRequest));
    r.temperature_milli = 0;
    assert_eq!(r.validate(), Ok(()));
}
