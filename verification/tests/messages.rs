use elevenlabs_rs::endpoints::genai::speech_engine::{
    parse_inbound_message, CreateSpeechEngine, SpeechEngineInboundKind, SpeechEngineInboundMessage,
    SpeechEngineTranscriptMessage, UpdateSpeechEngine,
};
use elevenlabs_rs::endpoints::genai::sound_effects::{CreateSoundEffect, CreateSoundEffectQuery};
use elevenlabs_rs::endpoints::genai::speech_to_text::{
    parse_realtime_response, RealtimeMessageKind, RealtimeSpeechToTextError, RealtimeSpeechToTextQuery,
    RealtimeSpeechToTextResponse, RealtimeTranscript, RealtimeTranscriptWithTimestamps,
    UnknownRealtimeSpeechToTextMessage,
};
use elevenlabs_rs::endpoints::genai::tts::{
    BOSMessage, MultiContextTTSInput, TTSWebSocketQuery, TextToSpeechBody,
};
use elevenlabs_rs::endpoints::genai::text_to_dialogue::{DialogueInput, TextToDialogueBody};
use elevenlabs_rs::endpoints::ElevenLabsEndpoint;
use elevenlabs_rs::error::Error;
use elevenlabs_rs::shared::{HttpMethod, OutputFormat};
use serde_json::Value;

fn json(text: &str) -> Value {
    serde_json::from_str(text).unwrap()
}

fn err(message: &str) -> RealtimeSpeechToTextError {
    RealtimeSpeechToTextError { message: Some(message.to_string()), code: None, extra: "{}".to_string() }
}

#[test]
fn realtime_transcript_helpers_read_text_and_type() {
    let partial = RealtimeSpeechToTextResponse::PartialTranscript(RealtimeTranscript {
        text: "hello".to_string(),
        extra: "{}".to_string(),
    });
    assert_eq!(partial.message_type(), "partial_transcript");
    assert_eq!(partial.transcript_text(), Some("hello"));
    assert!(!partial.is_error());
    assert!(partial.error().is_none());

    let timed = RealtimeSpeechToTextResponse::CommittedTranscriptWithTimestamps(
        RealtimeTranscriptWithTimestamps {
            text: "The".to_string(),
            language_code: Some("en".to_string()),
            words: "[]".to_string(),
            extra: "{}".to_string(),
        },
    );
    assert_eq!(timed.message_type(), "committed_transcript_with_timestamps");
    assert_eq!(timed.transcript_text(), Some("The"));
}

#[test]
fn realtime_error_helpers_expose_the_error() {
    let input = RealtimeSpeechToTextResponse::ScribeInputError(err("bad audio"));
    assert_eq!(input.message_type(), "scribe_input_error");
    assert_eq!(input.error().unwrap().message.as_deref(), Some("bad audio"));
    assert!(input.is_error());
    assert_eq!(input.transcript_text(), None);

    let invalid = RealtimeSpeechToTextResponse::InvalidRequest(err("bad request"));
    assert_eq!(RealtimeMessageKind::from_message_type("invalid_request"), invalid.kind());
    assert_eq!(invalid.message_type(), "invalid_request");
    assert!(invalid.is_error());

    let live = RealtimeSpeechToTextResponse::InputError(err("bad audio"));
    assert_eq!(RealtimeMessageKind::from_message_type("input_error"), live.kind());
    assert_eq!(live.message_type(), "input_error");
    assert_eq!(live.error().unwrap().message.as_deref(), Some("bad audio"));
}

#[test]
fn realtime_unknown_message_keeps_its_type() {
    let unknown = RealtimeSpeechToTextResponse::Unknown(UnknownRealtimeSpeechToTextMessage {
        message_type: "future_event".to_string(),
        payload: "{}".to_string(),
    });
    assert_eq!(unknown.kind(), RealtimeMessageKind::Unknown);
    assert_eq!(unknown.message_type(), "future_event");
    assert!(!unknown.is_error());
}

#[test]
fn speech_engine_inbound_accessors_read_their_fields() {
    let init = SpeechEngineInboundMessage::Init {
        conversation_id: "conv_123".to_string(),
        extra: "{}".to_string(),
    };
    assert_eq!(init.message_type(), "init");
    assert_eq!(init.conversation_id(), Some("conv_123"));
    assert_eq!(init.event_id(), None);
    assert!(init.transcript().is_none());

    let transcript = SpeechEngineInboundMessage::UserTranscript {
        user_transcript: vec![
            SpeechEngineTranscriptMessage::user("hello"),
            SpeechEngineTranscriptMessage::agent("hi"),
        ],
        event_id: Some(42),
        extra: "{}".to_string(),
    };
    assert_eq!(transcript.message_type(), "user_transcript");
    assert_eq!(transcript.event_id(), Some(42));
    assert_eq!(transcript.transcript().unwrap()[0].content, "hello");
    assert_eq!(transcript.transcript().unwrap()[1].role, "agent");
    assert_eq!(transcript.conversation_id(), None);

    let unknown = SpeechEngineInboundMessage::Unknown {
        message_type: "future_event".to_string(),
        payload: "{}".to_string(),
    };
    assert_eq!(unknown.message_type(), "future_event");
    assert_eq!(SpeechEngineInboundKind::from_type("future_event"), SpeechEngineInboundKind::Unknown);
    assert_eq!(SpeechEngineInboundMessage::Ping.message_type(), "ping");
    assert_eq!(SpeechEngineInboundMessage::Close.message_type(), "close");
}

#[test]
fn speech_engine_create_and_update_endpoints() {
    let create = CreateSpeechEngine::new("{}");
    assert_eq!(create.path(), "/v1/speech-engine");
    assert_eq!(create.method(), HttpMethod::Post);
    assert!(create.path_params().is_empty());
    let update = UpdateSpeechEngine::new("se_1", ());
    assert_eq!(update.path(), "/v1/speech-engine/:speech_engine_id");
    assert_eq!(update.method(), HttpMethod::Patch);
    assert_eq!(update.path_params(), vec![(":speech_engine_id", "se_1".to_string())]);
}

#[test]
fn sound_effect_endpoint_posts_with_its_query() {
    let plain = CreateSoundEffect::new(());
    assert_eq!(plain.path(), "/v1/sound-generation");
    assert_eq!(plain.method(), HttpMethod::Post);
    assert!(plain.query_params().is_none());
    let with_query = CreateSoundEffect::new(())
        .with_query(CreateSoundEffectQuery::default().with_output_format(OutputFormat::Mp3_44100Hz128kbps));
    assert_eq!(
        with_query.query_params().unwrap(),
        vec![("output_format", "mp3_44100_128".to_string())]
    );
}

#[test]
fn voice_settings_are_carried_as_json_text() {
    let settings = "{\"stability\":0.5}";
    let body = TextToSpeechBody::new("hi").with_voice_settings(settings);
    assert_eq!(body.voice_settings.as_deref(), Some(settings));
    assert_eq!(body.text, "hi");
    let bos = BOSMessage::default().with_voice_settings(settings);
    assert_eq!(bos.voice_settings.as_deref(), Some(settings));
    assert_eq!(bos.text, " ");
    let input = MultiContextTTSInput::text("ctx", "hello").with_voice_settings(settings);
    assert_eq!(input.voice_settings.as_deref(), Some(settings));
    assert_eq!(input.context_id.as_deref(), Some("ctx"));
    let dialogue =
        TextToDialogueBody::new(vec![DialogueInput::new("a", "voice")]).with_settings(settings);
    assert_eq!(dialogue.settings.as_deref(), Some(settings));
}

#[test]
fn decimal_query_settings_keep_the_written_value() {
    let q = RealtimeSpeechToTextQuery::default()
        .with_vad_silence_threshold_secs("1.5")
        .with_vad_threshold("0.4");
    assert_eq!(
        q.params,
        vec![("vad_silence_threshold_secs", "1.5".to_string()), ("vad_threshold", "0.4".to_string())]
    );
    let t = TTSWebSocketQuery::default().with_inactivity_timeout("20");
    assert_eq!(t.params, vec![("inactivity_timeout", "20".to_string())]);
}

#[test]
fn realtime_responses_deserialize_by_message_type() {
    let partial = r#"{"message_type":"partial_transcript","text":"hello"}"#;
    let response = parse_realtime_response(partial).unwrap();
    assert!(matches!(
        response,
        RealtimeSpeechToTextResponse::PartialTranscript(RealtimeTranscript { ref text, .. })
            if text == "hello"
    ));

    let error = r#"{"message_type":"scribe_rate_limited_error","message":"slow down","retry_after":2}"#;
    let response = parse_realtime_response(error).unwrap();
    assert!(matches!(
        response,
        RealtimeSpeechToTextResponse::ScribeRateLimitedError(ref err)
            if err.message.as_deref() == Some("slow down")
                && json(&err.extra).get("retry_after") == Some(&Value::from(2))
    ));
}

#[test]
fn realtime_response_helpers_expose_common_fields() {
    let partial = r#"{"message_type":"partial_transcript","text":"hello","stability":0.8}"#;
    let response = parse_realtime_response(partial).unwrap();

    assert_eq!(response.message_type(), "partial_transcript");
    assert_eq!(response.transcript_text(), Some("hello"));
    assert!(!response.is_error());

    let error = r#"{"message_type":"scribe_input_error","message":"bad audio"}"#;
    let response = parse_realtime_response(error).unwrap();

    assert_eq!(response.message_type(), "scribe_input_error");
    assert_eq!(response.error().unwrap().message.as_deref(), Some("bad audio"));
    assert!(response.is_error());
}

#[test]
fn realtime_live_error_events_are_classified_as_errors() {
    let invalid_request = r#"{"message_type":"invalid_request","message":"bad request"}"#;
    let response = parse_realtime_response(invalid_request).unwrap();

    assert!(matches!(response, RealtimeSpeechToTextResponse::InvalidRequest(_)));
    assert_eq!(response.message_type(), "invalid_request");
    assert_eq!(response.error().unwrap().message.as_deref(), Some("bad request"));
    assert!(response.is_error());

    let input_error = r#"{"message_type":"input_error","message":"bad audio"}"#;
    let response = parse_realtime_response(input_error).unwrap();

    assert!(matches!(response, RealtimeSpeechToTextResponse::InputError(_)));
    assert_eq!(response.message_type(), "input_error");
    assert_eq!(response.error().unwrap().message.as_deref(), Some("bad audio"));
    assert!(response.is_error());
}

#[test]
fn realtime_unknown_messages_preserve_type_and_payload() {
    let payload = r#"{
        "message_type": "future_event",
        "text": "still useful",
        "nested": { "ok": true }
    }"#;

    let response = parse_realtime_response(payload).unwrap();
    let RealtimeSpeechToTextResponse::Unknown(message) = response else {
        panic!("expected unknown event");
    };

    assert_eq!(message.message_type, "future_event");
    let p = json(&message.payload);
    assert_eq!(p.get("text"), Some(&Value::from("still useful")));
    assert_eq!(p["nested"]["ok"], Value::from(true));
    assert!(p.get("message_type").is_none());
}

#[test]
fn realtime_timestamp_words_accept_character_arrays() {
    let payload = r#"{
        "message_type": "committed_transcript_with_timestamps",
        "text": "The",
        "language_code": "en",
        "words": [
            {
                "text": "The",
                "start": 0,
                "end": 0.12,
                "type": "word",
                "logprob": -0.05,
                "characters": ["T", "h", "e"]
            }
        ]
    }"#;

    let response = parse_realtime_response(payload).unwrap();
    let RealtimeSpeechToTextResponse::CommittedTranscriptWithTimestamps(transcript) = response else {
        panic!("expected timestamp transcript");
    };

    let words = json(&transcript.words);
    assert_eq!(
        words[0]["characters"],
        Value::Array(vec![Value::from("T"), Value::from("h"), Value::from("e")])
    );
    assert_eq!(transcript.language_code.as_deref(), Some("en"));
}

#[test]
fn realtime_messages_without_their_fields_are_refused() {
    assert!(matches!(
        parse_realtime_response(r#"{"text":"hi"}"#),
        Err(Error::JsonError(ref m)) if m == "missing field `message_type`"
    ));
    assert!(matches!(
        parse_realtime_response(r#"{"message_type":"partial_transcript"}"#),
        Err(Error::JsonError(ref m)) if m == "missing field `text`"
    ));
    assert!(matches!(parse_realtime_response("[1]"), Err(Error::JsonError(ref m)) if m == "expected a JSON object"));
    assert!(matches!(parse_realtime_response("{"), Err(Error::JsonError(_))));
}

#[test]
fn inbound_messages_deserialize_by_type() {
    let init = parse_inbound_message(r#"{"type":"init","conversation_id":"conv_123","region":"eu"}"#).unwrap();
    assert_eq!(init.message_type(), "init");
    assert_eq!(init.conversation_id(), Some("conv_123"));

    let transcript = parse_inbound_message(
        r#"{"type":"user_transcript","event_id":42,"user_transcript":[{"role":"user","content":"hello"},{"role":"agent","content":"hi"}]}"#,
    )
    .unwrap();
    assert_eq!(transcript.message_type(), "user_transcript");
    assert_eq!(transcript.event_id(), Some(42));
    assert_eq!(transcript.transcript().unwrap()[0].content, "hello");

    let unknown = parse_inbound_message(r#"{"type":"future_event","payload":true}"#).unwrap();
    assert_eq!(unknown.message_type(), "future_event");
    match unknown {
        SpeechEngineInboundMessage::Unknown { payload, .. } => {
            assert_eq!(json(&payload)["payload"], Value::from(true));
        }
        other => panic!("expected unknown message, got {other:?}"),
    }
}

#[test]
fn inbound_messages_keep_their_other_fields() {
    let init = parse_inbound_message(r#"{"type":"init","conversation_id":"c","region":"eu"}"#).unwrap();
    match init {
        SpeechEngineInboundMessage::Init { extra, .. } => {
            assert_eq!(json(&extra)["region"], Value::from("eu"));
            assert!(json(&extra).get("conversation_id").is_none());
        }
        other => panic!("expected init, got {other:?}"),
    }
    assert!(matches!(parse_inbound_message(r#"{"type":"ping"}"#), Ok(SpeechEngineInboundMessage::Ping)));
    assert!(matches!(
        parse_inbound_message(r#"{"conversation_id":"c"}"#),
        Err(Error::JsonError(ref m)) if m == "missing field `type`"
    ));
    assert!(matches!(
        parse_inbound_message(r#"{"type":"user_transcript","user_transcript":5}"#),
        Err(Error::JsonError(ref m)) if m == "invalid type for field `user_transcript`"
    ));
}

#[test]
fn realtime_unknown_payload_keeps_escaped_keys_and_values() {
    let payload = r#"{"message_type":"future_event","quo\"te":"a\nb","n":7}"#;
    let response = parse_realtime_response(payload).unwrap();
    let RealtimeSpeechToTextResponse::Unknown(message) = response else {
        panic!("expected unknown event");
    };
    assert_eq!(message.message_type, "future_event");
    let p = json(&message.payload);
    assert_eq!(p.get("quo\"te"), Some(&Value::from("a\nb")));
    assert_eq!(p.get("n"), Some(&Value::from(7)));
    assert_eq!(p.as_object().unwrap().len(), 2);
}
