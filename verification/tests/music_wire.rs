use elevenlabs_rs::endpoints::genai::music::{multipart_boundary, parse_multipart};

#[test]
fn boundary_is_extracted_from_content_type() {
    assert_eq!(
        multipart_boundary("multipart/mixed; boundary=\"abc123\"").as_deref(),
        Some("abc123")
    );
    assert_eq!(
        multipart_boundary("multipart/mixed; boundary=xyz").as_deref(),
        Some("xyz")
    );
    assert_eq!(multipart_boundary("application/json"), None);
}

#[test]
fn multipart_response_is_parsed_into_json_and_audio() {
    let boundary = "boundary42";
    let json_part = r#"{"composition_plan":{"chunks":[]},"song_metadata":{"title":"Song","description":null,"genres":["pop"],"languages":["en"],"is_explicit":false},"words_timestamps":null}"#;
    let mut body = Vec::new();
    body.extend_from_slice(format!("--{boundary}\r\n").as_bytes());
    body.extend_from_slice(b"Content-Type: application/json\r\n\r\n");
    body.extend_from_slice(json_part.as_bytes());
    body.extend_from_slice(format!("\r\n--{boundary}\r\n").as_bytes());
    body.extend_from_slice(b"Content-Type: audio/mpeg\r\n\r\n");
    body.extend_from_slice(&[0xDE, 0xAD, 0xBE, 0xEF]);
    body.extend_from_slice(format!("\r\n--{boundary}--\r\n").as_bytes());

    let parts = parse_multipart(boundary, &body);
    assert_eq!(parts.len(), 2);

    let metadata: serde_json::Value = serde_json::from_slice(&parts[0].body).unwrap();
    assert_eq!(metadata["song_metadata"]["title"], "Song");
    assert!(metadata["composition_plan"]["chunks"].is_array());

    assert_eq!(
        parts[1].header("content-type").as_deref(),
        Some("audio/mpeg")
    );
    assert_eq!(parts[1].body, vec![0xDE, 0xAD, 0xBE, 0xEF]);
}

use elevenlabs_rs::endpoints::genai::music::{
    classify_part, collect_sse_line, parse_detailed_music_event, parse_headers,
    split_detailed_music_body, DetailedMusicStreamEvent, DetailedPartKind, SseDecoder,
};
use elevenlabs_rs::error::Error;

#[test]
fn detailed_stream_audio_event_decodes_base64() {
    let event = parse_detailed_music_event(r#"{"event":"audio_chunk","data":"3q2+7w=="}"#).unwrap();
    match event {
        DetailedMusicStreamEvent::AudioChunk(audio) => {
            assert_eq!(audio.as_slice(), &[0xDE, 0xAD, 0xBE, 0xEF]);
        }
        other => panic!("expected audio chunk, got {other:?}"),
    }
}

#[test]
fn detailed_stream_preserves_unknown_events() {
    let event =
        parse_detailed_music_event(r#"{"event":"future_event","data":{"id":"event_1"}}"#).unwrap();
    match event {
        DetailedMusicStreamEvent::Unknown { event, data } => {
            assert_eq!(event, "future_event");
            let data: serde_json::Value = serde_json::from_str(&data).unwrap();
            assert_eq!(data["id"], "event_1");
        }
        other => panic!("expected unknown event, got {other:?}"),
    }
}

#[test]
fn audio_chunk_with_non_string_data_is_invalid_input() {
    let event = parse_detailed_music_event(r#"{"event":"audio_chunk","data":42}"#);
    assert!(matches!(event, Err(Error::InvalidInput(m)) if m == "music audio_chunk event data must be a base64 string"));
    let event = parse_detailed_music_event(r#"{"event":"audio_chunk","data":"***"}"#);
    assert!(matches!(event, Err(Error::Base64DecodeError)));
    let event = parse_detailed_music_event("not json");
    assert!(matches!(event, Err(Error::JsonError(_))));
}

#[test]
fn known_events_keep_their_json_data() {
    let event =
        parse_detailed_music_event(r#"{"event":"song_metadata","data":{"title":"T"}}"#).unwrap();
    match event {
        DetailedMusicStreamEvent::SongMetadata(data) => {
            let v: serde_json::Value = serde_json::from_str(&data).unwrap();
            assert_eq!(v["title"], "T");
        }
        other => panic!("expected song metadata, got {other:?}"),
    }
}

#[test]
fn boundary_accepts_spaced_parameter_and_any_case() {
    assert_eq!(
        multipart_boundary("Multipart/Mixed; charset=utf-8; boundary = \"b1\" ").as_deref(),
        Some("b1")
    );
    assert_eq!(multipart_boundary("multipart/mixed; charset=utf-8"), None);
}

#[test]
fn later_headers_of_the_same_name_win() {
    let headers = parse_headers(b"Content-Type: a\r\nX: 1\nCONTENT-TYPE:  b  \r\nno colon line");
    assert_eq!(headers.len(), 3);
    assert_eq!(headers[0], ("content-type".to_string(), "a".to_string()));
    assert_eq!(headers[2], ("content-type".to_string(), "b".to_string()));
}

#[test]
fn part_kinds_follow_content_types() {
    assert_eq!(classify_part("application/json; charset=utf-8"), DetailedPartKind::Metadata);
    assert_eq!(classify_part("audio/mpeg"), DetailedPartKind::Audio);
    assert_eq!(classify_part("application/octet-stream"), DetailedPartKind::Audio);
    assert_eq!(classify_part("text/plain"), DetailedPartKind::Ignored);
    assert_eq!(classify_part(""), DetailedPartKind::Ignored);
}

#[test]
fn detailed_body_is_split_into_metadata_and_audio() {
    let body = b"--b\r\nContent-Type: application/json\r\n\r\n{\"a\":1}\r\n--b\r\nContent-Type: audio/mpeg\r\n\r\nAUDIO\r\n--b--\r\n";
    let parts = split_detailed_music_body(Some("multipart/mixed; boundary=b"), body).unwrap();
    assert_eq!(parts.metadata, vec![b"{\"a\":1}".to_vec()]);
    assert_eq!(parts.audio, b"AUDIO".to_vec());

    let missing = split_detailed_music_body(None, body);
    assert!(matches!(missing, Err(Error::InvalidInput(m)) if m == "detailed music response is missing a content-type header"));

    let not_multipart = split_detailed_music_body(Some("application/json"), body);
    assert!(matches!(not_multipart, Err(Error::InvalidInput(m)) if m == "detailed music response is not multipart: application/json"));
}

#[test]
fn sse_lines_collect_data_values() {
    let mut data = String::new();
    assert!(!collect_sse_line(b"event: x", &mut data).unwrap());
    assert!(!collect_sse_line(b"data: one\r", &mut data).unwrap());
    assert!(!collect_sse_line(b"data:two", &mut data).unwrap());
    assert_eq!(data, "one\ntwo");
    assert!(collect_sse_line(b"\r", &mut data).unwrap());
    assert!(matches!(collect_sse_line(&[0xFF], &mut data), Err(Error::Utf8Error)));
    assert_eq!(data, "one\ntwo");
}

fn events_of(chunks: &[&[u8]]) -> Vec<String> {
    let mut decoder = SseDecoder::new();
    let mut out = Vec::new();
    for chunk in chunks {
        decoder.push_chunk(chunk);
        while let Some(event) = decoder.next_event().unwrap() {
            out.push(event);
        }
    }
    if let Some(event) = decoder.finish().unwrap() {
        out.push(event);
    }
    out
}

#[test]
fn sse_events_do_not_depend_on_chunking() {
    let stream: &[u8] = b"data: {\"a\":1}\n\n: comment\ndata: {\"b\":\ndata: 2}\n\ndata: last";
    let whole = events_of(&[stream]);
    assert_eq!(whole, vec!["{\"a\":1}".to_string(), "{\"b\":\n2}".to_string(), "last".to_string()]);
    for cut in 0..stream.len() {
        let (a, b) = stream.split_at(cut);
        assert_eq!(events_of(&[a, b]), whole);
    }
}

fn feed_all(chunks: &[&[u8]]) -> (Vec<String>, bool, Option<String>) {
    let mut decoder = SseDecoder::new();
    let mut events = Vec::new();
    for chunk in chunks {
        let (found, refused) = decoder.feed(chunk);
        events.extend(found);
        if refused.is_some() {
            return (events, false, None);
        }
    }
    let last = decoder.finish().unwrap();
    (events, true, last)
}

#[test]
fn sse_feed_gives_the_same_events_however_the_bytes_are_cut() {
    let body: &[u8] = b"data: {\"a\":1}\r\n\r\nevent: x\ndata: one\ndata: two\n\ndata: tail";
    let whole = feed_all(&[body]);
    assert_eq!(whole.0, vec!["{\"a\":1}".to_string(), "one\ntwo".to_string()]);
    assert_eq!(whole.2, Some("tail".to_string()));
    for cut in 0..body.len() {
        let (a, b) = body.split_at(cut);
        assert_eq!(feed_all(&[a, b]), whole);
    }
    let bytes: Vec<&[u8]> = body.chunks(1).collect();
    assert_eq!(feed_all(&bytes), whole);
}
