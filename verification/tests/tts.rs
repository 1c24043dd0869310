use elevenlabs_rs::endpoints::genai::speech_to_text::WebSocketAuth;
use elevenlabs_rs::endpoints::genai::tts::{
    closing_inputs, closing_messages, input_sequence, text_input, BOSMessage, WebSocketTTSInput, DictionaryLocators, MultiContextTTSInput,
    MultiContextTTSResponse, MultiContextWebSocketTTS, Normalization, TTSWebSocketQuery,
    TextToSpeech, TextToSpeechBody, TextToSpeechQuery, WebSocketTTS, WebSocketTTSBody,
    WebSocketTTSErrorCode, WebSocketTTSResponse,
};
use elevenlabs_rs::endpoints::ElevenLabsEndpoint;
use elevenlabs_rs::shared::{DictionaryLocator, HttpMethod, OutputFormat};

#[test]
fn websocket_url_encodes_path_and_query_values() {
    let endpoint = WebSocketTTS::new(
        "voice id/with slash",
        WebSocketTTSBody::new(BOSMessage::default(), ()),
    )
    .with_query(
        TTSWebSocketQuery::default()
            .with_model_id("model with spaces")
            .with_language_code("en-US")
            .with_single_use_token("token/with?chars&symbols"),
    );

    let url = endpoint.url().unwrap();
    let parsed = reqwest::Url::parse(&url).unwrap();
    assert_eq!(
        parsed.path(),
        "/v1/text-to-speech/voice%20id%2Fwith%20slash/stream-input"
    );
    let query_pairs: Vec<_> = parsed.query_pairs().collect();
    assert!(query_pairs.contains(&("model_id".into(), "model with spaces".into())));
    assert!(query_pairs.contains(&("language_code".into(), "en-US".into())));
    assert!(query_pairs.contains(&("single_use_token".into(), "token/with?chars&symbols".into())));
}

#[test]
fn websocket_bos_api_key_injection_respects_explicit_auth() {
    let endpoint = WebSocketTTS::new("voice-id", WebSocketTTSBody::new(BOSMessage::default(), ()));
    assert!(endpoint.should_inject_bos_api_key());

    let endpoint = endpoint
        .with_query(TTSWebSocketQuery::default().with_single_use_token("single-use-token"));
    assert!(!endpoint.should_inject_bos_api_key());

    let endpoint = WebSocketTTS::new(
        "voice-id",
        WebSocketTTSBody::new(BOSMessage::default().with_authorization("bearer-token"), ()),
    );
    assert!(!endpoint.should_inject_bos_api_key());
}

#[test]
fn api_key_is_injected_only_without_other_auth() {
    let mut endpoint = WebSocketTTS::new("v", WebSocketTTSBody::new(BOSMessage::default(), ()));
    endpoint.inject_api_key("key");
    assert_eq!(endpoint.body.bos_message.xi_api_key.as_deref(), Some("key"));
    let mut endpoint = WebSocketTTS::new(
        "v",
        WebSocketTTSBody::new(BOSMessage::default().with_authorization("t"), ()),
    );
    endpoint.inject_api_key("key");
    assert_eq!(endpoint.body.bos_message.xi_api_key, None);
    assert_eq!(endpoint.body.bos_message.authorization.as_deref(), Some("Bearer t"));
}

#[test]
fn multi_context_websocket_url_and_auth_follow_api_shape() {
    let endpoint = MultiContextWebSocketTTS::new("voice id/with slash", ()).with_query(
        TTSWebSocketQuery::default()
            .with_model_id("model with spaces")
            .with_single_use_token("token/with?chars&symbols")
            .with_sync_alignment(true)
            .with_text_normalization(Normalization::On)
            .with_seed(42),
    );

    let url = endpoint.url().unwrap();
    let parsed = reqwest::Url::parse(&url).unwrap();
    assert_eq!(
        parsed.path(),
        "/v1/text-to-speech/voice%20id%2Fwith%20slash/multi-stream-input"
    );
    let query_pairs: Vec<_> = parsed.query_pairs().collect();
    assert!(query_pairs.contains(&("model_id".into(), "model with spaces".into())));
    assert!(query_pairs.contains(&("single_use_token".into(), "token/with?chars&symbols".into())));
    assert!(query_pairs.contains(&("sync_alignment".into(), "true".into())));
    assert!(query_pairs.contains(&("apply_text_normalization".into(), "on".into())));
    assert!(query_pairs.contains(&("seed".into(), "42".into())));
    assert_eq!(endpoint.auth(), WebSocketAuth::TokenInUrl);

    let endpoint = MultiContextWebSocketTTS::new("voice-id", ());
    assert_eq!(endpoint.auth(), WebSocketAuth::XiApiKeyHeader);
}

#[test]
fn multi_context_tts_response_exposes_context_audio_and_errors() {
    let response = MultiContextTTSResponse {
        audio: Some("aGVsbG8=".to_string()),
        is_final: Some(false),
        context_id: Some("conv_1".to_string()),
        code: None,
        error: None,
        message: None,
    };
    assert_eq!(response.context_id(), Some("conv_1"));
    assert!(response.has_audio());
    assert_eq!(response.audio_as_bytes().unwrap(), b"hello".to_vec());

    let response = MultiContextTTSResponse {
        audio: None,
        is_final: None,
        context_id: Some("conv_1".to_string()),
        code: Some(WebSocketTTSErrorCode::Number(1008)),
        error: Some("invalid_api_key".to_string()),
        message: Some("Invalid API key".to_string()),
    };
    assert!(response.is_error());
    assert_eq!(response.context_id(), Some("conv_1"));
    assert_eq!(response.code, Some(WebSocketTTSErrorCode::Number(1008)));
    assert_eq!(response.error_name(), Some("invalid_api_key"));
    assert_eq!(response.error_message(), Some("Invalid API key"));
}

fn ws_response(audio: Option<&str>, is_final: Option<bool>) -> WebSocketTTSResponse {
    WebSocketTTSResponse {
        audio: audio.map(str::to_string),
        is_final,
        code: None,
        error: None,
        message: None,
    }
}

#[test]
fn websocket_tts_audio_decodes_when_is_final_is_false() {
    let response = ws_response(Some("aGVsbG8="), Some(false));
    assert!(!response.is_final());
    assert!(response.has_audio());
    assert_eq!(response.audio_as_bytes().unwrap(), b"hello".to_vec());
}

#[test]
fn websocket_tts_final_response_has_no_audio_bytes() {
    let response = ws_response(Some("aGVsbG8="), Some(true));
    assert!(response.is_final());
    assert_eq!(response.audio_as_bytes().unwrap(), Vec::<u8>::new());
    assert!(!response.has_audio());
}

#[test]
fn websocket_tts_error_payloads_are_exposed() {
    let response = WebSocketTTSResponse {
        audio: None,
        is_final: None,
        code: Some(WebSocketTTSErrorCode::Number(1008)),
        error: Some("invalid_api_key".to_string()),
        message: Some("Invalid API key".to_string()),
    };
    assert!(response.is_error());
    assert_eq!(response.code, Some(WebSocketTTSErrorCode::Number(1008)));
    assert_eq!(response.error_name(), Some("invalid_api_key"));
    assert_eq!(response.error_message(), Some("Invalid API key"));

    let response = WebSocketTTSResponse {
        audio: None,
        is_final: None,
        code: Some(WebSocketTTSErrorCode::Text("future_code".to_string())),
        error: None,
        message: Some("Future error shape".to_string()),
    };
    assert!(response.is_error());
    assert_eq!(response.code.as_ref().unwrap().to_string(), "future_code");
    assert_eq!(WebSocketTTSErrorCode::Number(1008).to_string(), "1008");
    assert_eq!(response.error_message(), Some("Future error shape"));
    assert!(!ws_response(None, None).is_error());
    assert!(ws_response(Some("*"), None).audio_as_bytes().is_err());
}

#[test]
fn multi_context_inputs_name_their_context() {
    let input = MultiContextTTSInput::text("c1", "hello");
    assert_eq!(input.text.as_deref(), Some("hello"));
    assert_eq!(input.context_id.as_deref(), Some("c1"));
    assert_eq!(MultiContextTTSInput::start_context("c1").text.as_deref(), Some(" "));
    assert_eq!(MultiContextTTSInput::flush("c1").flush, Some(true));
    assert_eq!(MultiContextTTSInput::close_context("c1").close_context, Some(true));
    assert_eq!(MultiContextTTSInput::keep_context_alive("c1").keep_context_alive, Some(true));
    let close = MultiContextTTSInput::close_socket();
    assert_eq!(close.close_socket, Some(true));
    assert_eq!(close.context_id, None);
    let input = MultiContextTTSInput::text("c", "t").with_flush().with_generation_config([1, 2, 3, 4]);
    assert_eq!(input.flush, Some(true));
    assert_eq!(input.generation_config.unwrap().chunk_length_schedule(), [1, 2, 3, 4]);
}

#[test]
fn single_context_session_closes_with_optional_flush() {
    let tail = closing_messages(true);
    assert_eq!(tail.len(), 2);
    assert_eq!(tail[0].text, " ");
    assert_eq!(tail[0].flush, Some(true));
    assert_eq!(tail[1].text, "");
    assert_eq!(closing_messages(false).len(), 1);
}

#[test]
fn dictionary_locators_fill_three_slots_in_order() {
    let mut locators = DictionaryLocators::default();
    assert!(locators.push(DictionaryLocator::new("a", "1")));
    assert!(locators.push(DictionaryLocator::new("b", "2")));
    assert!(locators.push(DictionaryLocator::new("c", "3")));
    assert!(!locators.push(DictionaryLocator::new("d", "4")));
    let body = TextToSpeechBody::new("txt").with_dictionary_locators(locators);
    let ids: Vec<_> = body
        .pronunciation_dictionary_locators
        .unwrap()
        .into_iter()
        .map(|l| l.pronunciation_dictionary_id)
        .collect();
    assert_eq!(ids, vec!["a", "b", "c"]);
}

#[test]
fn tts_endpoint_shapes() {
    let endpoint = TextToSpeech::new("voice", TextToSpeechBody::new("hi").with_model_id("m"))
        .with_query(
            TextToSpeechQuery::default()
                .with_output_format(OutputFormat::Mp3_44100Hz128kbps)
                .with_logging(false),
        );
    assert_eq!(endpoint.path(), "/v1/text-to-speech/:voice_id");
    assert_eq!(endpoint.method(), HttpMethod::Post);
    assert_eq!(endpoint.path_params(), vec![(":voice_id", "voice".to_string())]);
    assert_eq!(
        endpoint.query_params().unwrap(),
        vec![
            ("output_format", "mp3_44100_128".to_string()),
            ("enable_logging", "false".to_string())
        ]
    );
    assert_eq!(endpoint.body.model_id.as_deref(), Some("m"));
}

fn text_of(i: &WebSocketTTSInput) -> (&str, Option<bool>) {
    match i {
        WebSocketTTSInput::Text(m) => (m.text.as_str(), m.flush),
        WebSocketTTSInput::Bos(_) => panic!("expected a text message"),
    }
}

#[test]
fn session_messages_open_speak_flush_and_end() {
    let texts = vec!["Hello ".to_string(), "world".to_string()];
    let v = input_sequence(BOSMessage::default().with_api_key("k"), &texts, true);
    assert_eq!(v.len(), 5);
    match &v[0] {
        WebSocketTTSInput::Bos(b) => {
            assert_eq!(b.text, " ");
            assert_eq!(b.xi_api_key.as_deref(), Some("k"));
        }
        WebSocketTTSInput::Text(_) => panic!("expected the first message"),
    }
    assert_eq!(text_of(&v[1]), ("Hello ", None));
    assert_eq!(text_of(&v[2]), ("world", None));
    assert_eq!(text_of(&v[3]), (" ", Some(true)));
    assert_eq!(text_of(&v[4]), ("", None));

    let v = input_sequence(BOSMessage::default(), &Vec::new(), false);
    assert_eq!(v.len(), 2);
    assert_eq!(text_of(&v[1]), ("", None));
}

#[test]
fn session_parts_carry_the_injected_key_and_closing() {
    let endpoint = WebSocketTTS::new("v", WebSocketTTSBody::new(BOSMessage::default(), 7u8).with_flush());
    assert!(!endpoint.close_after_inputs());
    assert_eq!(endpoint.endpoint_name(), "text_to_speech.websocket");
    let (first, texts, closing) = endpoint.into_input_parts("key");
    match first {
        WebSocketTTSInput::Bos(b) => assert_eq!(b.xi_api_key.as_deref(), Some("key")),
        WebSocketTTSInput::Text(_) => panic!("expected the first message"),
    }
    assert_eq!(texts, 7u8);
    assert_eq!(closing.len(), 2);
    assert_eq!(text_of(&closing[0]), (" ", Some(true)));
    assert_eq!(text_of(&closing[1]), ("", None));

    let endpoint = WebSocketTTS::new(
        "v",
        WebSocketTTSBody::new(BOSMessage::default().with_authorization("t"), ()),
    );
    let (first, _, closing) = endpoint.into_input_parts("key");
    match first {
        WebSocketTTSInput::Bos(b) => {
            assert_eq!(b.xi_api_key, None);
            assert_eq!(b.authorization.as_deref(), Some("Bearer t"));
        }
        WebSocketTTSInput::Text(_) => panic!("expected the first message"),
    }
    assert_eq!(closing.len(), 1);
    assert_eq!(text_of(&text_input("piece")), ("piece", None));
    assert_eq!(closing_inputs(false).len(), 1);

    let multi = MultiContextWebSocketTTS::new("v", ());
    assert!(!multi.close_after_inputs());
    assert_eq!(multi.endpoint_name(), "text_to_speech.multi_context_websocket");
}
