use elevenlabs_rs::endpoints::genai::speech_to_text::{
    Granularity, RealtimeCommitStrategy, RealtimeMessageKind, RealtimeSpeechToText,
    RealtimeSpeechToTextInput, RealtimeSpeechToTextQuery, TranscriptFileType, WebSocketAuth,
};
use elevenlabs_rs::error::Error;

#[test]
fn realtime_url_contains_required_model_and_optional_query() {
    let endpoint = RealtimeSpeechToText::new("scribe_v2_realtime", ()).with_query(
        RealtimeSpeechToTextQuery::default()
            .with_timestamps(true)
            .with_language_code("en")
            .with_commit_strategy(RealtimeCommitStrategy::Vad)
            .with_keyterms(&["ElevenLabs", "Scribe"]),
    );

    let url = endpoint.url().unwrap();
    let parsed = reqwest::Url::parse(&url).unwrap();
    assert_eq!(parsed.scheme(), "wss");
    assert_eq!(parsed.host_str(), Some("api.elevenlabs.io"));
    assert_eq!(parsed.path(), "/v1/speech-to-text/realtime");

    let query_pairs: Vec<_> = parsed.query_pairs().collect();
    assert!(query_pairs.contains(&("model_id".into(), "scribe_v2_realtime".into())));
    assert!(query_pairs.contains(&("include_timestamps".into(), "true".into())));
    assert!(query_pairs.contains(&("language_code".into(), "en".into())));
    assert!(query_pairs.contains(&("commit_strategy".into(), "vad".into())));
    assert!(query_pairs.contains(&("keyterms".into(), "ElevenLabs".into())));
    assert!(query_pairs.contains(&("keyterms".into(), "Scribe".into())));
}

#[test]
fn realtime_auth_uses_header_unless_token_query_is_set() {
    let endpoint = RealtimeSpeechToText::new("scribe_v2_realtime", ());
    assert_eq!(endpoint.auth(), WebSocketAuth::XiApiKeyHeader);
    let endpoint =
        endpoint.with_query(RealtimeSpeechToTextQuery::default().with_token("single-use-token"));
    assert_eq!(endpoint.auth(), WebSocketAuth::TokenInUrl);
}

#[test]
fn realtime_message_types_are_classified() {
    let kind = RealtimeMessageKind::from_message_type("partial_transcript");
    assert_eq!(kind, RealtimeMessageKind::PartialTranscript);
    assert_eq!(kind.message_type(), Some("partial_transcript"));
    assert!(kind.has_transcript());
    assert!(!kind.is_error());

    let kind = RealtimeMessageKind::from_message_type("scribe_input_error");
    assert_eq!(kind.message_type(), Some("scribe_input_error"));
    assert!(kind.is_error());

    for name in ["invalid_request", "input_error", "scribe_rate_limited_error"] {
        assert!(RealtimeMessageKind::from_message_type(name).is_error());
    }
    let kind = RealtimeMessageKind::from_message_type("future_event");
    assert_eq!(kind, RealtimeMessageKind::Unknown);
    assert_eq!(kind.message_type(), None);
}

#[test]
fn realtime_audio_chunk_carries_base64_audio() {
    let input = RealtimeSpeechToTextInput::audio(b"hello")
        .with_commit(true)
        .with_sample_rate(16_000)
        .with_previous_text("context");
    let RealtimeSpeechToTextInput::InputAudioChunk(chunk) = input;
    assert_eq!(chunk.audio_base_64, "aGVsbG8=");
    assert_eq!(chunk.commit, Some(true));
    assert_eq!(chunk.sample_rate, Some(16_000));
    assert_eq!(chunk.previous_text.as_deref(), Some("context"));
}

#[test]
fn transcript_file_types_follow_extensions() {
    assert_eq!(TranscriptFileType::from_extension("MP3", false).unwrap().mime_type(), "audio/mpeg");
    assert_eq!(TranscriptFileType::from_extension("aiff", false).unwrap().mime_type(), "audio/x-aiff");
    assert_eq!(TranscriptFileType::from_extension("webm", true).unwrap().mime_type(), "video/webm");
    assert_eq!(TranscriptFileType::from_extension("webm", false).unwrap().mime_type(), "audio/webm");
    assert_eq!(TranscriptFileType::from_extension("qt", false).unwrap().mime_type(), "video/quicktime");
    assert!(matches!(
        TranscriptFileType::from_extension("docx", false),
        Err(Error::FileExtensionNotSupported)
    ));
}

#[test]
fn granularity_names_default_to_words() {
    assert_eq!(Granularity::from_name("character"), Granularity::Character);
    assert_eq!(Granularity::from_name("none"), Granularity::NoTimestamps);
    assert_eq!(Granularity::from_name("anything"), Granularity::Word);
    assert_eq!(Granularity::NoTimestamps.as_str(), "none");
}

#[test]
fn realtime_session_closes_after_its_audio() {
    let endpoint = RealtimeSpeechToText::new("scribe_v2_realtime", ());
    assert!(endpoint.close_after_inputs());
    assert_eq!(endpoint.endpoint_name(), "speech_to_text.realtime");
}
