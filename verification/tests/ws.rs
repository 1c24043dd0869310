use elevenlabs_rs::ws::{payload_preview, WriterAction, WriterEvent, WriterState, WriterWait};

#[test]
fn payload_preview_is_bounded_without_splitting_unicode_scalars() {
    let payload = format!("{}{}", "a".repeat(256), "\u{2603}".repeat(20));
    let preview = payload_preview(&payload);

    assert!(preview.ends_with("..."));
    assert_eq!(preview.trim_end_matches("...").chars().count(), 256);
}

use elevenlabs_rs::error::{Error, WebSocketError};
use elevenlabs_rs::url::websocket_url;
use elevenlabs_rs::ws::{
    frame_kind, CloseOutcome, CloseResult, CloseStart, FrameKind, SessionFlags, WebSocketOptions,
};
use std::time::Duration;

#[test]
fn websocket_url_encodes_path_segments_and_query_values() {
    let url = websocket_url(
        "wss://api.elevenlabs.io",
        "/v1/text-to-speech/:voice_id/stream-input",
        &[(":voice_id", "voice id/with slash".to_string())],
        &vec![
            ("model_id", "model with spaces".to_string()),
            ("single_use_token", "token/with?chars&symbols".to_string()),
        ],
    )
    .unwrap();

    let parsed = reqwest::Url::parse(&url).unwrap();
    assert_eq!(
        parsed.path(),
        "/v1/text-to-speech/voice%20id%2Fwith%20slash/stream-input"
    );
    let query_pairs: Vec<_> = parsed.query_pairs().collect();
    assert!(query_pairs.contains(&("model_id".into(), "model with spaces".into())));
    assert!(query_pairs.contains(&("single_use_token".into(), "token/with?chars&symbols".into())));
}

#[test]
fn websocket_url_rejects_bases_without_paths() {
    let err = websocket_url("mailto:someone", "/x", &[], &Vec::new()).unwrap_err();
    assert!(matches!(err, Error::InvalidInput(m) if m == "websocket base URL cannot contain a relative path: mailto:someone"));
    let err = websocket_url("not a url", "/x", &[], &Vec::new()).unwrap_err();
    assert!(matches!(err, Error::InvalidInput(m) if m.starts_with("invalid websocket base URL: ")));
}

#[test]
fn short_payloads_are_previewed_whole() {
    assert_eq!(payload_preview("{\"a\":1}"), "{\"a\":1}");
    let exact = "b".repeat(256);
    assert_eq!(payload_preview(&exact), exact);
}

#[test]
fn options_default_and_normalize() {
    let options = WebSocketOptions::default();
    assert_eq!(options.inbound_buffer, 64);
    assert_eq!(options.close_timeout, Duration::from_secs(5));
    let options = options
        .with_inbound_buffer(0)
        .with_close_timeout(Duration::from_millis(1));
    assert_eq!(options.normalized().inbound_buffer, 1);
    assert_eq!(options.normalized().close_timeout, Duration::from_millis(1));
}

#[test]
fn frame_kinds_are_named() {
    assert_eq!(frame_kind(FrameKind::Binary), "binary");
    assert_eq!(frame_kind(FrameKind::Frame), "raw frame");
}

#[test]
fn session_close_sends_the_close_frame_then_stays_closed() {
    let mut flags = SessionFlags::started();
    assert!(!flags.is_closed());
    assert_eq!(flags.close_start(), CloseStart::SendClose);
    assert!(matches!(flags.close_finish(CloseOutcome::Sent, "test.websocket", Duration::from_secs(5)), CloseResult::Closed));
    assert!(flags.is_closed());
    assert_eq!(flags.close_start(), CloseStart::AlreadyClosed);
    assert!(flags.is_closed());
}

#[test]
fn session_abort_marks_closed() {
    let mut flags = SessionFlags::started();
    flags.abort();
    assert!(flags.is_closed());
}

#[test]
fn session_close_times_out_and_aborts() {
    let mut flags = SessionFlags::started();
    assert_eq!(flags.close_start(), CloseStart::SendClose);
    let result = flags.close_finish(CloseOutcome::TimedOut, "test.websocket", Duration::from_millis(1));
    assert!(matches!(
        result,
        CloseResult::Failed(Error::WebSocketError(WebSocketError::CloseTimeout {
            endpoint: "test.websocket",
            timeout,
        })) if timeout == Duration::from_millis(1)
    ));
    assert!(flags.is_closed());
}

#[test]
fn writer_sends_until_inputs_end_then_closes_or_waits() {
    let mut w = WriterState::new(true);
    assert_eq!(w.wait(), WriterWait::CommandOrInput);
    assert_eq!(w.on_event(WriterEvent::Input), WriterAction::Send);
    assert_eq!(w.wait(), WriterWait::CommandOrInput);
    assert_eq!(w.on_event(WriterEvent::InputsDone), WriterAction::Continue);
    assert_eq!(w.wait(), WriterWait::CloseNow);

    let mut w = WriterState::new(false);
    assert_eq!(w.on_event(WriterEvent::InputsDone), WriterAction::Continue);
    assert_eq!(w.wait(), WriterWait::CommandOnly);
    assert_eq!(w.on_event(WriterEvent::Command), WriterAction::CloseAndStop);

    let mut w = WriterState::new(false);
    assert_eq!(w.on_event(WriterEvent::QueueClosed), WriterAction::Stop);
}
