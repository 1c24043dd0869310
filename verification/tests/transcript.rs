use elevenlabs_rs::endpoints::genai::speech_to_text::{
    CreateTranscript, CreateTranscriptBody, CreateTranscriptQuery, Granularity,
    MultichannelOutputStyle,
};
use elevenlabs_rs::endpoints::ElevenLabsEndpoint;
use elevenlabs_rs::error::Error;
use elevenlabs_rs::shared::{FilePart, FormPart, HttpMethod};

fn text_of(p: &FormPart) -> (&str, &str) {
    match p {
        FormPart::Text { name, value } => (*name, value.as_str()),
        FormPart::File { .. } => panic!("expected a text part"),
    }
}

fn file_mime_of(p: &FormPart) -> Option<String> {
    match p {
        FormPart::File { name, mime, .. } => {
            assert_eq!(*name, "file");
            mime.clone()
        }
        FormPart::Text { .. } => panic!("expected a file part"),
    }
}

#[test]
fn transcript_form_sends_model_file_then_set_fields_in_order() {
    let body = CreateTranscriptBody::new("scribe_v2", FilePart::path("talk.MP3"))
        .with_diarize(true)
        .with_num_speakers(2)
        .with_tag_audio_events(false)
        .with_timestamps_granularity(Granularity::NoTimestamps)
        .with_language_code("en")
        .with_multichannel_output_style(MultichannelOutputStyle::Combined)
        .with_additional_formats("[{\"format\":\"txt\"}]");
    let parts = body.form_parts().unwrap();
    assert_eq!(parts.len(), 9);
    assert_eq!(text_of(&parts[0]), ("model_id", "scribe_v2"));
    assert_eq!(file_mime_of(&parts[1]), Some("audio/mpeg".to_string()));
    assert_eq!(text_of(&parts[2]), ("language_code", "en"));
    assert_eq!(text_of(&parts[3]), ("tag_audio_events", "false"));
    assert_eq!(text_of(&parts[4]), ("num_speakers", "2"));
    assert_eq!(text_of(&parts[5]), ("timestamps_granularity", "none"));
    assert_eq!(text_of(&parts[6]), ("diarize", "true"));
    assert_eq!(text_of(&parts[7]), ("multichannel_output_style", "combined"));
    assert_eq!(text_of(&parts[8]), ("additional_formats", "[{\"format\":\"txt\"}]"));
}

#[test]
fn transcript_webm_is_audio_unless_video_is_preferred() {
    let audio = CreateTranscriptBody::new("scribe_v2", FilePart::path("clip.webm"));
    assert_eq!(file_mime_of(&audio.form_parts().unwrap()[1]), Some("audio/webm".to_string()));
    let video = CreateTranscriptBody::new("scribe_v2", FilePart::path("clip.webm")).prefer_video();
    assert_eq!(file_mime_of(&video.form_parts().unwrap()[1]), Some("video/webm".to_string()));
}

#[test]
fn transcript_in_memory_file_keeps_its_own_mime() {
    let body = CreateTranscriptBody::from_bytes("scribe_v2", "x.unknown", "audio/wav", vec![1, 2]);
    let parts = body.form_parts().unwrap();
    assert_eq!(parts.len(), 2);
    assert_eq!(file_mime_of(&parts[1]), None);
}

#[test]
fn transcript_file_errors_follow_the_extension() {
    let none = CreateTranscriptBody::new("scribe_v2", FilePart::path("noext"));
    assert!(matches!(none.form_parts(), Err(Error::FileExtensionNotFound)));
    let unknown = CreateTranscriptBody::new("scribe_v2", FilePart::path("a.xyz"));
    assert!(matches!(unknown.form_parts(), Err(Error::FileExtensionNotSupported)));
}

#[test]
fn create_transcript_endpoint_posts_with_its_query() {
    let body = CreateTranscriptBody::new("scribe_v2", FilePart::path("a.wav"));
    let endpoint = CreateTranscript::new(body.clone());
    assert_eq!(endpoint.path(), "/v1/speech-to-text");
    assert_eq!(endpoint.method(), HttpMethod::Post);
    assert!(endpoint.query_params().is_none());
    let with_query =
        CreateTranscript::new(body).with_query(CreateTranscriptQuery::default().enable_logging(false));
    let q = with_query.query_params().unwrap();
    assert_eq!(q, vec![("enable_logging", "false".to_string())]);
}
