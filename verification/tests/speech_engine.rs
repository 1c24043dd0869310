use base64::engine::general_purpose::URL_SAFE_NO_PAD;
use base64::Engine;
use elevenlabs_rs::endpoints::genai::speech_engine::{
    jwt_segments, validate_claims, verify_authorization_token, ListSpeechEngines,
    ListSpeechEnginesQuery, SpeechEngineInboundKind, SpeechEngineOutboundMessage,
    SpeechEngineUpstreamSession, UpstreamAction, UpstreamFrame, JWT_CLOCK_SKEW_SECONDS,
    JWT_ISSUER, JWT_SUBJECT,
};
use elevenlabs_rs::endpoints::ElevenLabsEndpoint;
use elevenlabs_rs::error::{Error, WebSocketError};
use hmac::{Hmac, Mac};
use sha2::{Digest, Sha256};
use std::time::{SystemTime, UNIX_EPOCH};

fn signed_token(api_key: &str, exp: u64, iss: &str, sub: &str) -> String {
    let header = r#"{"alg":"HS256","typ":"JWT"}"#;
    let payload = format!(
        "{{\"iss\":{},\"sub\":{},\"exp\":{}}}",
        serde_json::to_string(iss).unwrap(),
        serde_json::to_string(sub).unwrap(),
        exp
    );
    let header = URL_SAFE_NO_PAD.encode(header.as_bytes());
    let payload = URL_SAFE_NO_PAD.encode(payload.as_bytes());
    let signing_input = format!("{header}.{payload}");
    let secret = Sha256::digest(api_key.as_bytes());
    let mut mac = Hmac::<Sha256>::new_from_slice(&secret).unwrap();
    mac.update(signing_input.as_bytes());
    let signature = URL_SAFE_NO_PAD.encode(mac.finalize().into_bytes());
    format!("{signing_input}.{signature}")
}

fn now_unix() -> u64 {
    SystemTime::now().duration_since(UNIX_EPOCH).unwrap().as_secs()
}

#[test]
fn authorization_token_verifies_signature_and_claims() {
    let api_key = "test-api-key";
    let exp = now_unix() + 300;
    let token = signed_token(api_key, exp, JWT_ISSUER, JWT_SUBJECT);

    let claims = verify_authorization_token(&token, api_key, now_unix()).unwrap();
    assert_eq!(claims.iss, JWT_ISSUER);
    assert_eq!(claims.sub, JWT_SUBJECT);
    assert_eq!(claims.exp, exp);

    assert!(verify_authorization_token(&token, "wrong-api-key", now_unix()).is_err());

    let bad_issuer = signed_token(api_key, exp, "https://example.com", JWT_SUBJECT);
    assert!(verify_authorization_token(&bad_issuer, api_key, now_unix()).is_err());

    let expired = signed_token(
        api_key,
        now_unix() - JWT_CLOCK_SKEW_SECONDS - 1,
        JWT_ISSUER,
        JWT_SUBJECT,
    );
    assert!(verify_authorization_token(&expired, api_key, now_unix()).is_err());
}

#[test]
fn bearer_prefix_and_whitespace_are_ignored() {
    let api_key = "k";
    let token = signed_token(api_key, 1_000, JWT_ISSUER, JWT_SUBJECT);
    let wrapped = format!("  Bearer {token} \n");
    let claims = verify_authorization_token(&wrapped, api_key, 1_000 + JWT_CLOCK_SKEW_SECONDS).unwrap();
    assert_eq!(claims.exp, 1_000);
    let late = verify_authorization_token(&wrapped, api_key, 1_001 + JWT_CLOCK_SKEW_SECONDS);
    assert!(matches!(late, Err(Error::InvalidInput(m)) if m == "speech engine JWT has expired"));
}

#[test]
fn token_segments_are_counted() {
    assert!(matches!(jwt_segments("abc"), Err(Error::InvalidInput(m)) if m == "speech engine JWT is missing payload"));
    assert!(matches!(jwt_segments("a.b"), Err(Error::InvalidInput(m)) if m == "speech engine JWT is missing signature"));
    assert!(matches!(jwt_segments("a.b.c.d"), Err(Error::InvalidInput(m)) if m == "speech engine JWT has too many segments"));
    let (h, p, s) = jwt_segments("Bearer a.b.c").unwrap();
    assert_eq!((h.as_str(), p.as_str(), s.as_str()), ("a", "b", "c"));
}

#[test]
fn unsupported_algorithms_and_bad_encodings_are_refused() {
    let header = URL_SAFE_NO_PAD.encode(br#"{"alg":"none"}"#);
    let token = format!("{header}.e30.sig");
    let err = verify_authorization_token(&token, "k", 0).unwrap_err();
    assert!(matches!(err, Error::InvalidInput(m) if m == "unsupported speech engine JWT alg: none"));
    let err = verify_authorization_token("***.e30.sig", "k", 0).unwrap_err();
    assert!(matches!(err, Error::Base64DecodeError));
    let not_json = URL_SAFE_NO_PAD.encode(b"nope");
    let err = verify_authorization_token(&format!("{not_json}.e30.sig"), "k", 0).unwrap_err();
    assert!(matches!(err, Error::JsonError(_)));
}

#[test]
fn claims_are_checked_in_order() {
    let err = validate_claims("x", "y", 0, 0).unwrap_err();
    assert!(matches!(err, Error::InvalidInput(m) if m == "invalid speech engine JWT issuer: x"));
    let err = validate_claims(JWT_ISSUER, "y", 0, 0).unwrap_err();
    assert!(matches!(err, Error::InvalidInput(m) if m == "invalid speech engine JWT subject: y"));
    assert!(validate_claims(JWT_ISSUER, JWT_SUBJECT, u64::MAX, u64::MAX).is_ok());
    assert!(validate_claims(JWT_ISSUER, JWT_SUBJECT, 0, 60).is_ok());
    assert!(validate_claims(JWT_ISSUER, JWT_SUBJECT, 0, 61).is_err());
}

#[test]
fn upstream_frames_drive_the_session() {
    let mut session = SpeechEngineUpstreamSession::new(());
    assert!(!session.is_closed());
    assert_eq!(session.on_frame(UpstreamFrame::Text).unwrap(), UpstreamAction::Decode);
    assert_eq!(session.on_frame(UpstreamFrame::Ping).unwrap(), UpstreamAction::SendPong);
    assert_eq!(session.on_frame(UpstreamFrame::Pong).unwrap(), UpstreamAction::Skip);
    let err = session.on_frame(UpstreamFrame::Binary).unwrap_err();
    assert!(matches!(err, Error::WebSocketError(WebSocketError::UnexpectedFrame { expected: "text or close", received: "binary", .. })));
    assert!(!session.is_closed());
    assert_eq!(session.on_frame(UpstreamFrame::Close).unwrap(), UpstreamAction::Finished);
    assert!(session.is_closed());
}

#[test]
fn inbound_types_and_outbound_messages() {
    assert_eq!(SpeechEngineInboundKind::from_type("user_transcript"), SpeechEngineInboundKind::UserTranscript);
    assert_eq!(SpeechEngineInboundKind::from_type("later"), SpeechEngineInboundKind::Unknown);
    assert_eq!(SpeechEngineInboundKind::Init.message_type(), Some("init"));
    assert_eq!(SpeechEngineInboundKind::Unknown.message_type(), None);
    match SpeechEngineOutboundMessage::final_agent_response(7) {
        SpeechEngineOutboundMessage::AgentResponse { content, event_id, is_final } => {
            assert_eq!(content, "");
            assert_eq!(event_id, Some(7));
            assert!(is_final);
        }
        other => panic!("unexpected {other:?}"),
    }
}

#[test]
fn list_speech_engines_carries_its_query() {
    let endpoint = ListSpeechEngines::with_query(
        ListSpeechEnginesQuery::default().with_page_size(25).with_search("support"),
    );
    let query = endpoint.query_params().unwrap();
    assert_eq!(query, vec![("page_size", "25".to_string()), ("search", "support".to_string())]);
    assert_eq!(endpoint.path(), "/v1/speech-engine");
}

fn token_with_header(api_key: &str, header: &str, payload: &str) -> String {
    let header = URL_SAFE_NO_PAD.encode(header.as_bytes());
    let payload = URL_SAFE_NO_PAD.encode(payload.as_bytes());
    let signing_input = format!("{header}.{payload}");
    let secret = Sha256::digest(api_key.as_bytes());
    let mut mac = Hmac::<Sha256>::new_from_slice(&secret).unwrap();
    mac.update(signing_input.as_bytes());
    let signature = URL_SAFE_NO_PAD.encode(mac.finalize().into_bytes());
    format!("{signing_input}.{signature}")
}

#[test]
fn token_header_may_be_an_object_or_a_one_element_array() {
    let key = "k";
    let payload = format!(
        "{{\"iss\":{},\"sub\":{},\"exp\":{}}}",
        serde_json::to_string(JWT_ISSUER).unwrap(),
        serde_json::to_string(JWT_SUBJECT).unwrap(),
        1000
    );
    let array = token_with_header(key, r#"["HS256"]"#, &payload);
    assert_eq!(verify_authorization_token(&array, key, 1000).unwrap().exp, 1000);
    let two = token_with_header(key, r#"["HS256","JWT"]"#, &payload);
    assert!(verify_authorization_token(&two, key, 1000).is_err());
    let other = token_with_header(key, r#"["HS512"]"#, &payload);
    assert!(verify_authorization_token(&other, key, 1000).is_err());
    let array_claims = token_with_header(
        key,
        r#"{"alg":"HS256"}"#,
        &format!("[{},{},1000]", serde_json::to_string(JWT_ISSUER).unwrap(), serde_json::to_string(JWT_SUBJECT).unwrap()),
    );
    assert!(verify_authorization_token(&array_claims, key, 1000).is_err());
}
