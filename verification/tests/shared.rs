use elevenlabs_rs::endpoints::genai::audio_isolation::{AudioIsolationBody, DeleteAudioIsolationHistoryItem};
use elevenlabs_rs::endpoints::genai::dubbing::{DubbingBody, GetDubbedTranscript, GetDubbedTranscriptQuery, TranscriptFormat};
use elevenlabs_rs::endpoints::genai::forced_alignment::CreateForcedAlignmentBody;
use elevenlabs_rs::endpoints::genai::text_to_dialogue::{
    character_offset, segment_text, segment_text_of, SegmentSpan,
};
use elevenlabs_rs::endpoints::genai::tokens::{CreateSingleUseToken, SingleUseTokenType};
use elevenlabs_rs::endpoints::ElevenLabsEndpoint;
use elevenlabs_rs::error::Error;
use elevenlabs_rs::identifiers::{DefaultVoice, LegacyVoice, Model, VoiceID};
use elevenlabs_rs::shared::{audio_mime_from_extension, FilePart, FormPart, OutputFormat};
use elevenlabs_rs::url::{endpoint_url, resolve_path};
use elevenlabs_rs::utils::TextChunker;

#[test]
fn path_templates_resolve_placeholders() {
    let params = vec![(":voice_id", "abc".to_string())];
    assert_eq!(resolve_path("/v1/text-to-speech/:voice_id/stream", &params), vec!["v1", "text-to-speech", "abc", "stream"]);
    assert_eq!(resolve_path("v1//dubbing/", &[]), vec!["v1", "dubbing", ""]);
    assert_eq!(resolve_path("/", &[]), Vec::<String>::new());
    let url = endpoint_url("/v1/history/:id", &[(":id", "a b".to_string())], Some(vec![("q", "1&2".to_string())])).unwrap();
    assert_eq!(url, "https://api.elevenlabs.io/v1/history/a%20b?q=1%262");
}

#[test]
fn voices_and_models_have_fixed_ids() {
    assert_eq!(Model::ElevenFlashV2_5.as_str(), "eleven_flash_v2_5");
    assert_eq!(DefaultVoice::default().as_str(), "cjVigY5qzO86Huf0OWal");
    assert_eq!(LegacyVoice::Rachel.to_id().get_value(), "21m00Tcm4TlvDq8ikWAM");
    assert_eq!(VoiceID::from_str("x").as_path_param(), (":voice_id", "x".to_string()));
}

#[test]
fn audio_mime_types_come_from_the_audio_table() {
    assert_eq!(audio_mime_from_extension("Mp3").unwrap(), "audio/mpeg");
    assert_eq!(audio_mime_from_extension("m4a").unwrap(), "audio/x-m4a");
    assert!(matches!(audio_mime_from_extension("mkv"), Err(Error::FileExtensionNotSupported)));
    assert_eq!(FilePart::path("a/b.c/d.ogg").extension().unwrap(), "ogg");
    assert!(matches!(FilePart::path("a/.hidden").extension(), Err(Error::FileExtensionNotFound)));
}

#[test]
fn dubbing_form_follows_field_order() {
    let body = DubbingBody::new("es")
        .with_file("clip.mp4")
        .with_name("ignored")
        .with_num_speakers(2)
        .with_watermark(true)
        .with_start_time("1.5");
    let parts = body.form_parts(vec![1, 2, 3]).unwrap();
    let names: Vec<_> = parts
        .iter()
        .map(|p| match p {
            FormPart::Text { name, value } => format!("{name}={value}"),
            FormPart::File { name, mime, .. } => format!("{name}:{}", mime.as_deref().unwrap_or("")),
        })
        .collect();
    assert_eq!(names, vec!["file:video/mp4", "target_lang=es", "num_speakers=2", "watermark=true", "start_time=1.5"]);
    assert!(matches!(&parts[0], FormPart::File { file: FilePart::Bytes { file_name, bytes, .. }, .. }
        if file_name == "clip.mp4" && bytes == &vec![1u8, 2, 3]));
    assert!(matches!(DubbingBody::new("es").with_file("clip.mkv").form_parts(Vec::new()), Err(Error::FileExtensionNotSupported)));
    assert!(matches!(DubbingBody::new("es").with_file("clip").form_parts(Vec::new()), Err(Error::FileExtensionNotFound)));
}

#[test]
fn dubbed_transcript_endpoint_shape() {
    let endpoint = GetDubbedTranscript::new("d1", "en")
        .with_query(GetDubbedTranscriptQuery::default().with_format(TranscriptFormat::WebVtt));
    assert_eq!(endpoint.path(), "v1/dubbing/:dubbing_id/transcript/:language_code");
    assert_eq!(endpoint.path_params(), vec![(":dubbing_id", "d1".to_string()), (":language_code", "en".to_string())]);
    assert_eq!(endpoint.query_params().unwrap(), vec![("format_type", "webvtt".to_string())]);
}

#[test]
fn segments_read_their_characters() {
    let chars: Vec<String> = ["H", "i", " ", "y", "o"].iter().map(|s| s.to_string()).collect();
    let spans = [SegmentSpan { character_start_index: 10, character_end_index: 12 }, SegmentSpan { character_start_index: 13, character_end_index: 15 }];
    assert_eq!(character_offset(&spans), 10);
    assert_eq!(segment_text(Some(&chars), &spans, &spans[0]), "Hi");
    assert_eq!(segment_text(Some(&chars), &spans, &spans[1]), "yo");
    assert_eq!(segment_text(None, &spans, &spans[0]), "");
    let outside = SegmentSpan { character_start_index: 10, character_end_index: 40 };
    assert_eq!(segment_text(Some(&chars), &spans, &outside), "");
    assert_eq!(character_offset(&[]), 0);
}

#[test]
fn text_chunks_end_at_splitters() {
    let mut chunker = TextChunker::new();
    assert_eq!(chunker.push("Hello"), None);
    assert_eq!(chunker.push(", world"), Some("Hello, ".to_string()));
    assert_eq!(chunker.buf, " world");
    assert_eq!(chunker.push("!"), Some(" world! ".to_string()));
    assert_eq!(chunker.push("Bye."), None);
    assert_eq!(chunker.push("Now"), Some("Bye. ".to_string()));
    assert_eq!(chunker.finish(), Some("Now".to_string()));
    assert_eq!(TextChunker::new().finish(), None);
}

#[test]
fn misc_endpoint_shapes() {
    let token = CreateSingleUseToken::new(SingleUseTokenType::realtime_scribe());
    assert_eq!(token.path_params(), vec![(":token_type", "realtime_scribe".to_string())]);
    let delete = DeleteAudioIsolationHistoryItem::new("h1");
    assert_eq!(delete.path(), "/v1/audio-isolation/history/:history_item_id");
    let parts = AudioIsolationBody::from_path("noise.wav").form_parts().unwrap();
    assert!(matches!(&parts[0], FormPart::File { name: "audio", mime: Some(m), .. } if m == "audio/wav"));
    let parts = CreateForcedAlignmentBody::new(FilePart::path("talk.mov"), "hello").form_parts().unwrap();
    assert!(matches!(&parts[0], FormPart::File { name: "file", mime: Some(m), .. } if m == "video/quicktime"));
    assert!(matches!(&parts[1], FormPart::Text { name: "text", value } if value == "hello"));
}

#[test]
fn output_format_names_round_trip() {
    assert_eq!(OutputFormat::Mp3_24000Hz48kbps.to_string(), "mp3_24000_48");
    assert_eq!(OutputFormat::Pcm48000Hz.to_string(), "pcm_48000");
    assert_eq!(OutputFormat::ALaw8000Hz.to_string(), "alaw_8000");
    assert_eq!(OutputFormat::MuLaw8000Hz.as_str(), "ulaw_8000");
    assert_eq!(OutputFormat::custom("future_codec").to_string(), "future_codec");
}

#[test]
fn segment_text_prefers_the_alignment_over_the_normalized_one() {
    let spans = vec![SegmentSpan { character_start_index: 0, character_end_index: 2 }];
    let original: Vec<String> = vec!["H".into(), "i".into()];
    let normalized: Vec<String> = vec!["h".into(), "y".into()];
    assert_eq!(segment_text_of(Some(&original), Some(&normalized), &spans, &spans[0]), "Hi");
    assert_eq!(segment_text_of(None, Some(&normalized), &spans, &spans[0]), "hy");
    assert_eq!(segment_text_of(None, None, &spans, &spans[0]), "");
}
