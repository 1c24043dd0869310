use elevenlabs_rs::endpoints::genai::music::{
    model_id_str, AudioRefChunk, ComposeMusicDetailed, CompositionChunk, CompositionPlan,
    CreateMusicFinetuneBody, GenerationChunk, GetMusicFinetune, MusicComposeBody,
    MusicCompositionPlan, MusicFinetuneQuery, MusicFinetuneSort, MusicFinetuneSortDirection,
    MusicFinetuneVisibility, MusicModel, MusicPrompt, MusicQuery, SongSection,
    StemSeparationBody, StemVariation, TimeRange, UploadMusicBody, VideoToMusicBody,
    ExtractCompositionPlan, WritableMusicFinetuneVisibility,
};
use elevenlabs_rs::endpoints::ElevenLabsEndpoint;
use elevenlabs_rs::error::Error;
use elevenlabs_rs::shared::{FilePart, FormPart, HttpMethod, OutputFormat};

fn text_of(part: &FormPart) -> (&str, &str) {
    match part {
        FormPart::Text { name, value } => (name, value.as_str()),
        FormPart::File { .. } => panic!("expected a text part"),
    }
}

fn file_of(part: &FormPart) -> (&str, Option<&str>) {
    match part {
        FormPart::File { name, mime, .. } => (name, mime.as_deref()),
        FormPart::Text { .. } => panic!("expected a file part"),
    }
}

#[test]
fn compose_body_from_prompt_sets_only_the_prompt() {
    let body = MusicComposeBody::from_prompt("an upbeat track").with_music_length_ms(30_000);
    assert_eq!(body.prompt.as_deref(), Some("an upbeat track"));
    assert_eq!(body.music_length_ms, Some(30_000));
    assert_eq!(body.model_id, MusicModel::MusicV1);
    assert!(body.composition_plan.is_none());
    assert_eq!(model_id_str(body.model_id), "music_v1");
}

#[test]
fn compose_body_from_v2_plan_sets_the_model() {
    let plan = CompositionPlan::new().add_chunk(CompositionChunk::Generation(
        GenerationChunk::new("[Verse]\nCity lights", 15_000).with_positive_styles(&["pop", "warm synths"]),
    ));
    let body = MusicComposeBody::from_composition_plan(MusicCompositionPlan::V2(plan));
    assert_eq!(body.model_id, MusicModel::MusicV2);
    assert!(body.prompt.is_none());
    match body.composition_plan {
        Some(MusicCompositionPlan::V2(plan)) => match &plan.chunks[0] {
            CompositionChunk::Generation(chunk) => {
                assert_eq!(chunk.duration_ms, 15_000);
                assert_eq!(chunk.positive_styles, vec!["pop", "warm synths"]);
            }
            other => panic!("unexpected {other:?}"),
        },
        other => panic!("unexpected {other:?}"),
    }
    let v1 = MusicCompositionPlan::V1(MusicPrompt::new().add_section(SongSection::new("Intro", 3_000)));
    assert_eq!(v1.model(), MusicModel::MusicV1);
}

#[test]
fn detailed_compose_endpoint_carries_query_and_flag() {
    let endpoint = ComposeMusicDetailed::new(MusicComposeBody::from_prompt("p"))
        .with_query(MusicQuery::default().with_output_format(OutputFormat::custom("mp3_48000_192")))
        .with_timestamps(true);
    assert!(endpoint.with_timestamps);
    assert_eq!(endpoint.path(), "/v1/music/detailed");
    assert_eq!(endpoint.method(), HttpMethod::Post);
    assert_eq!(
        endpoint.query_params().unwrap(),
        vec![("output_format", "mp3_48000_192".to_string())]
    );
}

#[test]
fn stem_separation_form_infers_audio_mime() {
    let body = StemSeparationBody::new(FilePart::path("song.MP3")).with_stem_variation(StemVariation::TwoStems);
    let parts = body.form_parts().unwrap();
    assert_eq!(parts.len(), 3);
    assert_eq!(file_of(&parts[0]), ("file", Some("audio/mpeg")));
    assert_eq!(text_of(&parts[1]), ("stem_variation_id", "two_stems_v1"));
    assert_eq!(text_of(&parts[2]), ("sign_with_c2pa", "false"));

    let in_memory = StemSeparationBody::from_bytes("x.bin", "audio/wav", vec![1, 2]);
    assert_eq!(file_of(&in_memory.form_parts().unwrap()[0]), ("file", None));

    assert!(matches!(StemSeparationBody::new(FilePart::path("noext")).form_parts(), Err(Error::FileExtensionNotFound)));
    assert!(matches!(StemSeparationBody::new(FilePart::path("a.txt")).form_parts(), Err(Error::FileExtensionNotSupported)));
}

#[test]
fn upload_form_adds_optional_fields() {
    let parts = UploadMusicBody::new(FilePart::path("dir/song.wav"))
        .with_extract_composition_plan(ExtractCompositionPlan::V2)
        .with_timestamps(true)
        .form_parts()
        .unwrap();
    assert_eq!(parts.len(), 3);
    assert_eq!(file_of(&parts[0]), ("file", Some("audio/wav")));
    assert_eq!(text_of(&parts[1]), ("extract_composition_plan", "music_v2"));
    assert_eq!(text_of(&parts[2]), ("with_timestamps", "true"));
    assert_eq!(UploadMusicBody::new(FilePart::path("s.wav")).form_parts().unwrap().len(), 1);
}

#[test]
fn video_form_lists_videos_tags_and_model() {
    let parts = VideoToMusicBody::new(vec![FilePart::path("a.MOV")])
        .add_video(FilePart::path("b.mp4"))
        .with_description("tense")
        .with_tags(&["cinematic", "suspense"])
        .form_parts()
        .unwrap();
    assert_eq!(parts.len(), 7);
    assert_eq!(file_of(&parts[0]), ("videos", Some("video/quicktime")));
    assert_eq!(file_of(&parts[1]), ("videos", Some("video/mp4")));
    assert_eq!(text_of(&parts[2]), ("description", "tense"));
    assert_eq!(text_of(&parts[3]), ("tags", "cinematic"));
    assert_eq!(text_of(&parts[4]), ("tags", "suspense"));
    assert_eq!(text_of(&parts[5]), ("model_id", "music_v1"));
    assert_eq!(text_of(&parts[6]), ("sign_with_c2pa", "false"));
    let bad = VideoToMusicBody::new(vec![FilePart::path("a.mp4"), FilePart::path("b.gif")]).form_parts();
    assert!(matches!(bad, Err(Error::FileExtensionNotSupported)));
}

#[test]
fn finetune_form_and_query() {
    let parts = CreateMusicFinetuneBody::new("mine", "jazz")
        .add_file(FilePart::path("take.flac"))
        .with_tags(&["warm"])
        .with_visibility(WritableMusicFinetuneVisibility::Workspace)
        .form_parts()
        .unwrap();
    assert_eq!(parts.len(), 6);
    assert_eq!(text_of(&parts[0]), ("name", "mine"));
    assert_eq!(text_of(&parts[1]), ("primary_genre", "jazz"));
    assert_eq!(text_of(&parts[2]), ("model_id", "music_v1"));
    assert_eq!(file_of(&parts[3]), ("files", Some("audio/flac")));
    assert_eq!(text_of(&parts[4]), ("tags", "[\"warm\"]"));
    assert_eq!(text_of(&parts[5]), ("visibility", "workspace"));

    let query = MusicFinetuneQuery::default()
        .with_cursor("c")
        .with_page_size(10)
        .with_visibility(MusicFinetuneVisibility::Public)
        .with_sort(MusicFinetuneSort::CreatedAt)
        .with_sort_direction(MusicFinetuneSortDirection::Descending);
    assert_eq!(
        query.params,
        vec![
            ("cursor", "c".to_string()),
            ("page_size", "10".to_string()),
            ("visibility", "public".to_string()),
            ("sort", "created_at".to_string()),
            ("sort_direction", "desc".to_string())
        ]
    );
    let get = GetMusicFinetune::new("ft 1");
    assert_eq!(get.path_params(), vec![(":finetune_id", "ft 1".to_string())]);
}

#[test]
fn chunk_builders_keep_other_fields() {
    let chunk = GenerationChunk::new("t", 5_000)
        .with_conditioning_ref(AudioRefChunk::new("song", TimeRange::new(0, 5_000)))
        .with_negative_styles(&["metal"]);
    assert_eq!(chunk.text, "t");
    assert_eq!(chunk.negative_styles, Some(vec!["metal".to_string()]));
    assert_eq!(chunk.conditioning_ref.unwrap().range, TimeRange::new(0, 5_000));
    assert_eq!(StemVariation::default().as_str(), "six_stems_v1");
}

#[test]
fn finetune_tags_are_written_as_an_escaped_json_list() {
    let parts = CreateMusicFinetuneBody::new("mine", "jazz")
        .with_tags(&["a\"b", "c\nd", "e\\f"])
        .form_parts()
        .unwrap();
    assert_eq!(parts.len(), 4);
    assert_eq!(text_of(&parts[3]), ("tags", "[\"a\\\"b\",\"c\\nd\",\"e\\\\f\"]"));
}
