//! The music generation endpoints: compose a song from a prompt or a
//! composition plan, stream it, separate stems, upload songs for inpainting,
//! score videos and manage music finetunes.
use vstd::prelude::*;

use crate::endpoints::ElevenLabsEndpoint;
use crate::error::Error;
use crate::shared::{format_name, 
    append_file_parts, file_view, infer_all, inferred_audio_mime, inferred_mime_spec, is_file_part,
    is_text_part, json_of_strings, json_string_list, mimes_for, text_part, FormPart,
    clone_query, opt_query_view, push_query, query_view, FilePart, HttpMethod, OutputFormat,
    QueryValues,
};
use crate::text::{bool_text, bool_to_string, decimal, owned, str_views, string_views, strings_of, u64_to_string};

pub use crate::endpoints::genai::music_wire::{
    classify_part, collect_sse_line, decode_audio_chunk, multipart_boundary, parse_headers,
    parse_detailed_music_event, parse_multipart, split_detailed_music_body, DetailedMusicEventKind,
    DetailedMusicParts, DetailedMusicStreamEvent,
    DetailedPartKind, MultipartPart, SseDecoder,
};

verus! {

broadcast use vstd::string::group_string_axioms;

// ---------------------------------------------------------------------------
// Shared query
// ---------------------------------------------------------------------------

/// Query parameters shared by the composing and stem-separation endpoints.
#[derive(Clone, Debug)]
pub struct MusicQuery {
    pub params: QueryValues,
}

impl Default for MusicQuery {
    fn default() -> (r: Self)
        ensures
            r.params@.len() == 0,
    {
        MusicQuery { params: Vec::new() }
    }
}

impl MusicQuery {
    /// Output format of the generated audio, formatted as `codec_sample_rate_bitrate`.
    pub fn with_output_format(self, output_format: OutputFormat) -> (r: Self)
        ensures
            query_view(r.params@) == query_view(self.params@).push(("output_format"@, format_name(output_format))),
    {
        let mut s = self;
        push_query(&mut s.params, "output_format", output_format.to_string());
        s
    }
}

// ---------------------------------------------------------------------------
// Models and composition plans
// ---------------------------------------------------------------------------

/// The model to use for the generation.
#[derive(Clone, Copy, Debug, PartialEq, Eq, Structural)]
pub enum MusicModel {
    /// `music_v1`, which pairs with a [`MusicPrompt`] plan.
    MusicV1,
    /// `music_v2`, which pairs with a [`CompositionPlan`] plan.
    MusicV2,
}

impl Default for MusicModel {
    fn default() -> (r: Self)
        ensures
            r == MusicModel::MusicV1,
    {
        MusicModel::MusicV1
    }
}

/// The wire name of a music model.
pub open spec fn model_name(m: MusicModel) -> Seq<char> {
    match m {
        MusicModel::MusicV1 => "music_v1"@,
        MusicModel::MusicV2 => "music_v2"@,
    }
}

/// The name of each music model.
pub proof fn lemma_model_name_table()
    ensures
        model_name(MusicModel::MusicV1) == "music_v1"@,
        model_name(MusicModel::MusicV2) == "music_v2"@,
{
}

/// The wire name of a music model.
pub fn model_id_str(model: MusicModel) -> (s: &'static str)
    ensures
        s@ == model_name(model),
{
    match model {
        MusicModel::MusicV1 => "music_v1",
        MusicModel::MusicV2 => "music_v2",
    }
}

/// A detailed composition plan; the variant decides the model it suits.
#[derive(Clone, Debug)]
pub enum MusicCompositionPlan {
    V1(MusicPrompt),
    V2(CompositionPlan),
}

/// The model a composition plan suits.
pub open spec fn plan_model(p: MusicCompositionPlan) -> MusicModel {
    match p {
        MusicCompositionPlan::V1(_) => MusicModel::MusicV1,
        MusicCompositionPlan::V2(_) => MusicModel::MusicV2,
    }
}

impl MusicCompositionPlan {
    /// The model this composition plan is compatible with.
    pub fn model(&self) -> (m: MusicModel)
        ensures
            m == plan_model(*self),
    {
        match self {
            MusicCompositionPlan::V1(_) => MusicModel::MusicV1,
            MusicCompositionPlan::V2(_) => MusicModel::MusicV2,
        }
    }
}

/// Composition plan for the `music_v1` model.
#[derive(Clone, Debug)]
pub struct MusicPrompt {
    /// Styles present in the entire song.
    pub positive_global_styles: Vec<String>,
    /// Styles absent from the entire song.
    pub negative_global_styles: Vec<String>,
    /// The sections of the song.
    pub sections: Vec<SongSection>,
}

impl Default for MusicPrompt {
    fn default() -> (r: Self)
        ensures
            r.positive_global_styles@.len() == 0,
            r.negative_global_styles@.len() == 0,
            r.sections@.len() == 0,
    {
        MusicPrompt {
            positive_global_styles: Vec::new(),
            negative_global_styles: Vec::new(),
            sections: Vec::new(),
        }
    }
}

impl MusicPrompt {
    pub fn new() -> (r: Self)
        ensures
            r.positive_global_styles@.len() == 0,
            r.negative_global_styles@.len() == 0,
            r.sections@.len() == 0,
    {
        Self::default()
    }

    pub fn with_positive_global_styles(self, styles: &[&str]) -> (r: Self)
        ensures
            string_views(r.positive_global_styles@) == str_views(styles@),
            r == (Self { positive_global_styles: r.positive_global_styles, ..self }),
    {
        Self { positive_global_styles: strings_of(styles), ..self }
    }
    pub fn with_negative_global_styles(self, styles: &[&str]) -> (r: Self)
        ensures
            string_views(r.negative_global_styles@) == str_views(styles@),
            r == (Self { negative_global_styles: r.negative_global_styles, ..self }),
    {
        Self { negative_global_styles: strings_of(styles), ..self }
    }
    pub fn with_sections(self, sections: Vec<SongSection>) -> (r: Self)
        ensures
            r.sections == sections,
            r == (Self { sections: r.sections, ..self }),
    {
        Self { sections: sections, ..self }
    }
    pub fn add_section(self, section: SongSection) -> (r: Self)
        ensures
            r.sections@ == self.sections@.push(section),
            r == (Self { sections: r.sections, ..self }),
    {
        let mut s = self;
        s.sections.push(section);
        s
    }
}

/// A section of a [`MusicPrompt`].
#[derive(Clone, Debug)]
pub struct SongSection {
    /// The name of the section.
    pub section_name: String,
    /// Styles present in this section.
    pub positive_local_styles: Vec<String>,
    /// Styles absent from this section.
    pub negative_local_styles: Vec<String>,
    /// The duration of the section in milliseconds.
    pub duration_ms: u32,
    /// The lyrics of the section.
    pub lines: Vec<String>,
    /// The song range the section is taken from, for inpainting.
    pub source_from: Option<SectionSource>,
}

impl SongSection {
    pub fn new(section_name: &str, duration_ms: u32) -> (r: Self)
        ensures
            r.section_name@ == section_name@,
            r.duration_ms == duration_ms,
            r.positive_local_styles@.len() == 0,
            r.negative_local_styles@.len() == 0,
            r.lines@.len() == 0,
            r.source_from is None,
    {
        SongSection {
            section_name: owned(section_name),
            positive_local_styles: Vec::new(),
            negative_local_styles: Vec::new(),
            duration_ms,
            lines: Vec::new(),
            source_from: None,
        }
    }

    pub fn with_positive_local_styles(self, styles: &[&str]) -> (r: Self)
        ensures
            string_views(r.positive_local_styles@) == str_views(styles@),
            r == (Self { positive_local_styles: r.positive_local_styles, ..self }),
    {
        Self { positive_local_styles: strings_of(styles), ..self }
    }
    pub fn with_negative_local_styles(self, styles: &[&str]) -> (r: Self)
        ensures
            string_views(r.negative_local_styles@) == str_views(styles@),
            r == (Self { negative_local_styles: r.negative_local_styles, ..self }),
    {
        Self { negative_local_styles: strings_of(styles), ..self }
    }
    pub fn with_lines(self, lines: &[&str]) -> (r: Self)
        ensures
            string_views(r.lines@) == str_views(lines@),
            r == (Self { lines: r.lines, ..self }),
    {
        Self { lines: strings_of(lines), ..self }
    }
    pub fn with_source_from(self, source: SectionSource) -> (r: Self)
        ensures
            r.source_from == Some(source),
            r == (Self { source_from: r.source_from, ..self }),
    {
        Self { source_from: Some(source), ..self }
    }
}

/// The source song and time range a section is extracted from.
#[derive(Clone, Debug)]
pub struct SectionSource {
    /// The ID of the source song.
    pub song_id: String,
    /// The range to extract.
    pub range: TimeRange,
    /// Ranges to leave out of `range`.
    pub negative_ranges: Option<Vec<TimeRange>>,
}

impl SectionSource {
    pub fn new(song_id: &str, range: TimeRange) -> (r: Self)
        ensures
            r.song_id@ == song_id@,
            r.range == range,
            r.negative_ranges is None,
    {
        SectionSource { song_id: owned(song_id), range, negative_ranges: None }
    }

    pub fn with_negative_ranges(self, ranges: Vec<TimeRange>) -> (r: Self)
        ensures
            r.negative_ranges == Some(ranges),
            r == (Self { negative_ranges: r.negative_ranges, ..self }),
    {
        Self { negative_ranges: Some(ranges), ..self }
    }
}

/// A time range within a song, in milliseconds.
#[derive(Clone, Copy, Debug, PartialEq, Eq, Structural)]
pub struct TimeRange {
    pub start_ms: u32,
    pub end_ms: u32,
}

impl TimeRange {
    pub fn new(start_ms: u32, end_ms: u32) -> (r: Self)
        ensures
            r.start_ms == start_ms,
            r.end_ms == end_ms,
    {
        TimeRange { start_ms, end_ms }
    }
}

/// Composition plan for the `music_v2` model.
#[derive(Clone, Debug)]
pub struct CompositionPlan {
    /// The chunks that make up the generation.
    pub chunks: Vec<CompositionChunk>,
}

impl Default for CompositionPlan {
    fn default() -> (r: Self)
        ensures
            r.chunks@.len() == 0,
    {
        CompositionPlan { chunks: Vec::new() }
    }
}

impl CompositionPlan {
    pub fn new() -> (r: Self)
        ensures
            r.chunks@.len() == 0,
    {
        Self::default()
    }

    pub fn with_chunks(self, chunks: Vec<CompositionChunk>) -> (r: Self)
        ensures
            r.chunks == chunks,
            r == (Self { chunks: r.chunks, ..self }),
    {
        Self { chunks: chunks, ..self }
    }
    pub fn add_chunk(self, chunk: CompositionChunk) -> (r: Self)
        ensures
            r.chunks@ == self.chunks@.push(chunk),
            r == (Self { chunks: r.chunks, ..self }),
    {
        let mut s = self;
        s.chunks.push(chunk);
        s
    }
}

/// A chunk of a [`CompositionPlan`].
#[derive(Clone, Debug)]
pub enum CompositionChunk {
    /// A chunk generated from text and styles.
    Generation(GenerationChunk),
    /// A range of an existing song.
    AudioRef(AudioRefChunk),
}

/// How strongly the model adheres to the context of surrounding chunks.
#[derive(Clone, Copy, Debug, PartialEq, Eq, Structural)]
pub enum ContextAdherence {
    Low,
    Medium,
    High,
}

impl Default for ContextAdherence {
    fn default() -> (r: Self)
        ensures
            r == ContextAdherence::High,
    {
        ContextAdherence::High
    }
}

/// How strongly the model adheres to a conditioning reference.
#[derive(Clone, Copy, Debug, PartialEq, Eq, Structural)]
pub enum ConditionStrength {
    Low,
    Medium,
    High,
    Xhigh,
}

/// A chunk generated from text and styles.
#[derive(Clone, Debug)]
pub struct GenerationChunk {
    /// The text of the chunk: section names, lyrics and directions.
    pub text: String,
    /// The duration of the chunk in milliseconds.
    pub duration_ms: u32,
    /// Styles present in this chunk.
    pub positive_styles: Vec<String>,
    /// Styles absent from this chunk.
    pub negative_styles: Option<Vec<String>>,
    /// Adherence to the surrounding chunks.
    pub context_adherence: Option<ContextAdherence>,
    /// The audio reference to condition the generation on.
    pub conditioning_ref: Option<AudioRefChunk>,
    /// Adherence to the conditioning reference.
    pub condition_strength: Option<ConditionStrength>,
}

impl GenerationChunk {
    pub fn new(text: &str, duration_ms: u32) -> (r: Self)
        ensures
            r.text@ == text@,
            r.duration_ms == duration_ms,
            r.positive_styles@.len() == 0,
            r.negative_styles is None,
            r.context_adherence is None,
            r.conditioning_ref is None,
            r.condition_strength is None,
    {
        GenerationChunk {
            text: owned(text),
            duration_ms,
            positive_styles: Vec::new(),
            negative_styles: None,
            context_adherence: None,
            conditioning_ref: None,
            condition_strength: None,
        }
    }

    pub fn with_positive_styles(self, styles: &[&str]) -> (r: Self)
        ensures
            string_views(r.positive_styles@) == str_views(styles@),
            r == (Self { positive_styles: r.positive_styles, ..self }),
    {
        Self { positive_styles: strings_of(styles), ..self }
    }
    pub fn with_negative_styles(self, styles: &[&str]) -> (r: Self)
        ensures
            r.negative_styles matches Some(v) && string_views(v@) == str_views(styles@),
            r == (Self { negative_styles: r.negative_styles, ..self }),
    {
        Self { negative_styles: Some(strings_of(styles)), ..self }
    }
    pub fn with_context_adherence(self, context_adherence: ContextAdherence) -> (r: Self)
        ensures
            r.context_adherence == Some(context_adherence),
            r == (Self { context_adherence: r.context_adherence, ..self }),
    {
        Self { context_adherence: Some(context_adherence), ..self }
    }
    pub fn with_conditioning_ref(self, conditioning_ref: AudioRefChunk) -> (r: Self)
        ensures
            r.conditioning_ref == Some(conditioning_ref),
            r == (Self { conditioning_ref: r.conditioning_ref, ..self }),
    {
        Self { conditioning_ref: Some(conditioning_ref), ..self }
    }
    pub fn with_condition_strength(self, condition_strength: ConditionStrength) -> (r: Self)
        ensures
            r.condition_strength == Some(condition_strength),
            r == (Self { condition_strength: r.condition_strength, ..self }),
    {
        Self { condition_strength: Some(condition_strength), ..self }
    }
}

/// A reference to a range of an existing song.
#[derive(Clone, Debug)]
pub struct AudioRefChunk {
    /// The ID of the song.
    pub song_id: String,
    /// The range of the song.
    pub range: TimeRange,
}

impl AudioRefChunk {
    pub fn new(song_id: &str, range: TimeRange) -> (r: Self)
        ensures
            r.song_id@ == song_id@,
            r.range == range,
    {
        AudioRefChunk { song_id: owned(song_id), range }
    }
}

/// A word-level timestamp of a generated or uploaded song.
#[derive(Clone, Debug)]
pub struct WordTimestamp {
    pub word: String,
    pub start_ms: u32,
    pub end_ms: u32,
}

/// Metadata describing a generated song.
#[derive(Clone, Debug)]
pub struct SongMetadata {
    pub title: Option<String>,
    pub description: Option<String>,
    pub genres: Vec<String>,
    pub languages: Vec<String>,
    pub is_explicit: Option<bool>,
}

// ---------------------------------------------------------------------------
// Compose body
// ---------------------------------------------------------------------------

/// Request body for composing a song: a prompt or a composition plan.
#[derive(Clone, Debug)]
pub struct MusicComposeBody {
    pub prompt: Option<String>,
    pub composition_plan: Option<MusicCompositionPlan>,
    pub music_length_ms: Option<u32>,
    pub model_id: MusicModel,
    pub seed: Option<u32>,
    pub force_instrumental: Option<bool>,
    pub finetune_id: Option<String>,
    pub respect_sections_durations: Option<bool>,
    pub store_for_inpainting: Option<bool>,
    pub sign_with_c2pa: Option<bool>,
}

/// A compose body with nothing set but the model and, maybe, a prompt or plan.
pub open spec fn compose_defaults(b: MusicComposeBody) -> bool {
    &&& b.music_length_ms is None
    &&& b.seed is None
    &&& b.force_instrumental is None
    &&& b.finetune_id is None
    &&& b.respect_sections_durations is None
    &&& b.store_for_inpainting is None
    &&& b.sign_with_c2pa is None
}

impl Default for MusicComposeBody {
    fn default() -> (r: Self)
        ensures
            r.prompt is None,
            r.composition_plan is None,
            r.model_id == MusicModel::MusicV1,
            compose_defaults(r),
    {
        MusicComposeBody {
            prompt: None,
            composition_plan: None,
            music_length_ms: None,
            model_id: MusicModel::MusicV1,
            seed: None,
            force_instrumental: None,
            finetune_id: None,
            respect_sections_durations: None,
            store_for_inpainting: None,
            sign_with_c2pa: None,
        }
    }
}

impl MusicComposeBody {
    /// Compose from a text prompt, with the `music_v1` model.
    pub fn from_prompt(prompt: &str) -> (r: Self)
        ensures
            r.prompt matches Some(p) && p@ == prompt@,
            r.composition_plan is None,
            r.model_id == MusicModel::MusicV1,
            compose_defaults(r),
    {
        MusicComposeBody { prompt: Some(owned(prompt)), ..Self::default() }
    }

    /// Compose from a composition plan, with the model the plan suits.
    pub fn from_composition_plan(plan: MusicCompositionPlan) -> (r: Self)
        ensures
            r.prompt is None,
            r.composition_plan == Some(plan),
            r.model_id == plan_model(plan),
            compose_defaults(r),
    {
        let model_id = plan.model();
        MusicComposeBody { model_id, composition_plan: Some(plan), ..Self::default() }
    }

    /// Override the model to use for the generation.
    pub fn with_model(self, model_id: MusicModel) -> (r: Self)
        ensures
            r.model_id == model_id,
            r == (Self { model_id: r.model_id, ..self }),
    {
        Self { model_id: model_id, ..self }
    }
    /// The length of the song in milliseconds; used with a prompt.
    pub fn with_music_length_ms(self, music_length_ms: u32) -> (r: Self)
        ensures
            r.music_length_ms == Some(music_length_ms),
            r == (Self { music_length_ms: r.music_length_ms, ..self }),
    {
        Self { music_length_ms: Some(music_length_ms), ..self }
    }
    /// Random seed for the generation.
    pub fn with_seed(self, seed: u32) -> (r: Self)
        ensures
            r.seed == Some(seed),
            r == (Self { seed: r.seed, ..self }),
    {
        Self { seed: Some(seed), ..self }
    }
    /// Whether the song must be instrumental; used with a prompt.
    pub fn with_force_instrumental(self, force_instrumental: bool) -> (r: Self)
        ensures
            r.force_instrumental == Some(force_instrumental),
            r == (Self { force_instrumental: r.force_instrumental, ..self }),
    {
        Self { force_instrumental: Some(force_instrumental), ..self }
    }
    /// The music finetune to use.
    pub fn with_finetune_id(self, finetune_id: &str) -> (r: Self)
        ensures
            r.finetune_id matches Some(s) && s@ == finetune_id@,
            r == (Self { finetune_id: r.finetune_id, ..self }),
    {
        Self { finetune_id: Some(owned(finetune_id)), ..self }
    }
    /// How strictly section durations are enforced.
    pub fn with_respect_sections_durations(self, respect: bool) -> (r: Self)
        ensures
            r.respect_sections_durations == Some(respect),
            r == (Self { respect_sections_durations: r.respect_sections_durations, ..self }),
    {
        Self { respect_sections_durations: Some(respect), ..self }
    }
    /// Whether to store the song for inpainting.
    pub fn with_store_for_inpainting(self, store: bool) -> (r: Self)
        ensures
            r.store_for_inpainting == Some(store),
            r == (Self { store_for_inpainting: r.store_for_inpainting, ..self }),
    {
        Self { store_for_inpainting: Some(store), ..self }
    }
    /// Whether to sign the song with C2PA.
    pub fn with_sign_with_c2pa(self, sign: bool) -> (r: Self)
        ensures
            r.sign_with_c2pa == Some(sign),
            r == (Self { sign_with_c2pa: r.sign_with_c2pa, ..self }),
    {
        Self { sign_with_c2pa: Some(sign), ..self }
    }
}

/// Compose a song from a prompt or a composition plan; the answer is the audio.
#[derive(Clone, Debug)]
pub struct ComposeMusic {
    pub body: MusicComposeBody,
    pub query: Option<MusicQuery>,
}

impl ComposeMusic {
    pub fn new(body: MusicComposeBody) -> (r: Self)
        ensures
            r.body == body,
            r.query is None,
    {
        ComposeMusic { body, query: None }
    }

    pub fn with_query(self, query: MusicQuery) -> (r: Self)
        ensures
            r.query == Some(query),
            r == (Self { query: r.query, ..self }),
    {
        Self { query: Some(query), ..self }
    }
}

impl ElevenLabsEndpoint for ComposeMusic {
    fn path(&self) -> (p: &'static str)
        ensures
            p@ == "/v1/music"@,
    {
        "/v1/music"
    }

    fn method(&self) -> (m: HttpMethod)
        ensures
            m == HttpMethod::Post,
    {
        HttpMethod::Post
    }

    fn query_params(&self) -> (r: Option<QueryValues>)
        ensures
            opt_query_view(r) == match self.query {
                Some(q) => Some(query_view(q.params@)),
                None => None::<Seq<(Seq<char>, Seq<char>)>>,
            },
    {
        match &self.query {
            Some(q) => Some(clone_query(&q.params)),
            None => None,
        }
    }

    fn path_params(&self) -> (r: Vec<(&'static str, String)>)
        ensures
            r@.len() == 0,
    {
        Vec::new()
    }
}

/// Stream a composed song as it is generated.
#[derive(Clone, Debug)]
pub struct StreamMusic {
    pub body: MusicComposeBody,
    pub query: Option<MusicQuery>,
}

impl StreamMusic {
    pub fn new(body: MusicComposeBody) -> (r: Self)
        ensures
            r.body == body,
            r.query is None,
    {
        StreamMusic { body, query: None }
    }

    pub fn with_query(self, query: MusicQuery) -> (r: Self)
        ensures
            r.query == Some(query),
            r == (Self { query: r.query, ..self }),
    {
        Self { query: Some(query), ..self }
    }
}

impl ElevenLabsEndpoint for StreamMusic {
    fn path(&self) -> (p: &'static str)
        ensures
            p@ == "/v1/music/stream"@,
    {
        "/v1/music/stream"
    }

    fn method(&self) -> (m: HttpMethod)
        ensures
            m == HttpMethod::Post,
    {
        HttpMethod::Post
    }

    fn query_params(&self) -> (r: Option<QueryValues>)
        ensures
            opt_query_view(r) == match self.query {
                Some(q) => Some(query_view(q.params@)),
                None => None::<Seq<(Seq<char>, Seq<char>)>>,
            },
    {
        match &self.query {
            Some(q) => Some(clone_query(&q.params)),
            None => None,
        }
    }

    fn path_params(&self) -> (r: Vec<(&'static str, String)>)
        ensures
            r@.len() == 0,
    {
        Vec::new()
    }
}

/// Compose a song and return the audio with its plan, metadata and timestamps.
#[derive(Clone, Debug)]
pub struct ComposeMusicDetailed {
    pub body: MusicComposeBody,
    pub query: Option<MusicQuery>,
    pub with_timestamps: bool,
}

impl ComposeMusicDetailed {
    pub fn new(body: MusicComposeBody) -> (r: Self)
        ensures
            r.body == body,
            r.query is None,
            !r.with_timestamps,
    {
        ComposeMusicDetailed { body, query: None, with_timestamps: false }
    }

    pub fn with_query(self, query: MusicQuery) -> (r: Self)
        ensures
            r.query == Some(query),
            r == (Self { query: r.query, ..self }),
    {
        Self { query: Some(query), ..self }
    }
    /// Whether word timestamps are returned.
    pub fn with_timestamps(self, with_timestamps: bool) -> (r: Self)
        ensures
            r.with_timestamps == with_timestamps,
            r == (Self { with_timestamps: r.with_timestamps, ..self }),
    {
        Self { with_timestamps: with_timestamps, ..self }
    }
}

impl ElevenLabsEndpoint for ComposeMusicDetailed {
    fn path(&self) -> (p: &'static str)
        ensures
            p@ == "/v1/music/detailed"@,
    {
        "/v1/music/detailed"
    }

    fn method(&self) -> (m: HttpMethod)
        ensures
            m == HttpMethod::Post,
    {
        HttpMethod::Post
    }

    fn query_params(&self) -> (r: Option<QueryValues>)
        ensures
            opt_query_view(r) == match self.query {
                Some(q) => Some(query_view(q.params@)),
                None => None::<Seq<(Seq<char>, Seq<char>)>>,
            },
    {
        match &self.query {
            Some(q) => Some(clone_query(&q.params)),
            None => None,
        }
    }

    fn path_params(&self) -> (r: Vec<(&'static str, String)>)
        ensures
            r@.len() == 0,
    {
        Vec::new()
    }
}

/// Stream composed audio and detailed generation metadata as server-sent events.
#[derive(Clone, Debug)]
pub struct StreamMusicDetailed {
    pub body: MusicComposeBody,
    pub query: Option<MusicQuery>,
    pub with_timestamps: bool,
}

impl StreamMusicDetailed {
    pub fn new(body: MusicComposeBody) -> (r: Self)
        ensures
            r.body == body,
            r.query is None,
            !r.with_timestamps,
    {
        StreamMusicDetailed { body, query: None, with_timestamps: false }
    }

    pub fn with_query(self, query: MusicQuery) -> (r: Self)
        ensures
            r.query == Some(query),
            r == (Self { query: r.query, ..self }),
    {
        Self { query: Some(query), ..self }
    }
    /// Whether word timestamps are returned.
    pub fn with_timestamps(self, with_timestamps: bool) -> (r: Self)
        ensures
            r.with_timestamps == with_timestamps,
            r == (Self { with_timestamps: r.with_timestamps, ..self }),
    {
        Self { with_timestamps: with_timestamps, ..self }
    }
}

impl ElevenLabsEndpoint for StreamMusicDetailed {
    fn path(&self) -> (p: &'static str)
        ensures
            p@ == "/v1/music/detailed/stream"@,
    {
        "/v1/music/detailed/stream"
    }

    fn method(&self) -> (m: HttpMethod)
        ensures
            m == HttpMethod::Post,
    {
        HttpMethod::Post
    }

    fn query_params(&self) -> (r: Option<QueryValues>)
        ensures
            opt_query_view(r) == match self.query {
                Some(q) => Some(query_view(q.params@)),
                None => None::<Seq<(Seq<char>, Seq<char>)>>,
            },
    {
        match &self.query {
            Some(q) => Some(clone_query(&q.params)),
            None => None,
        }
    }

    fn path_params(&self) -> (r: Vec<(&'static str, String)>)
        ensures
            r@.len() == 0,
    {
        Vec::new()
    }
}

/// The parsed answer of [`ComposeMusicDetailed`].
#[derive(Clone, Debug)]
pub struct DetailedMusic {
    /// The ID of the song, from the `song-id` header.
    pub song_id: Option<String>,
    pub composition_plan: Option<MusicCompositionPlan>,
    pub song_metadata: Option<SongMetadata>,
    pub words_timestamps: Option<Vec<WordTimestamp>>,
    /// The generated audio.
    pub audio: Vec<u8>,
}

// ---------------------------------------------------------------------------
// Composition plans
// ---------------------------------------------------------------------------

/// Request body for [`GenerateCompositionPlan`].
#[derive(Clone, Debug)]
pub struct CompositionPlanBody {
    pub prompt: String,
    pub music_length_ms: Option<u32>,
    pub source_composition_plan: Option<MusicCompositionPlan>,
    pub model_id: MusicModel,
}

impl CompositionPlanBody {
    pub fn new(prompt: &str) -> (r: Self)
        ensures
            r.prompt@ == prompt@,
            r.music_length_ms is None,
            r.source_composition_plan is None,
            r.model_id == MusicModel::MusicV1,
    {
        CompositionPlanBody {
            prompt: owned(prompt),
            music_length_ms: None,
            source_composition_plan: None,
            model_id: MusicModel::MusicV1,
        }
    }

    /// The model to plan for.
    pub fn with_model(self, model_id: MusicModel) -> (r: Self)
        ensures
            r.model_id == model_id,
            r == (Self { model_id: r.model_id, ..self }),
    {
        Self { model_id: model_id, ..self }
    }
    /// The length of the plan in milliseconds.
    pub fn with_music_length_ms(self, music_length_ms: u32) -> (r: Self)
        ensures
            r.music_length_ms == Some(music_length_ms),
            r == (Self { music_length_ms: r.music_length_ms, ..self }),
    {
        Self { music_length_ms: Some(music_length_ms), ..self }
    }
    /// A plan to start from.
    pub fn with_source_composition_plan(self, plan: MusicCompositionPlan) -> (r: Self)
        ensures
            r.source_composition_plan == Some(plan),
            r == (Self { source_composition_plan: r.source_composition_plan, ..self }),
    {
        Self { source_composition_plan: Some(plan), ..self }
    }
}

/// Generate a composition plan from a prompt.
#[derive(Clone, Debug)]
pub struct GenerateCompositionPlan {
    pub body: CompositionPlanBody,
}

impl GenerateCompositionPlan {
    pub fn new(body: CompositionPlanBody) -> (r: Self)
        ensures
            r.body == body,
    {
        GenerateCompositionPlan { body }
    }
}

impl ElevenLabsEndpoint for GenerateCompositionPlan {
    fn path(&self) -> (p: &'static str)
        ensures
            p@ == "/v1/music/plan"@,
    {
        "/v1/music/plan"
    }

    fn method(&self) -> (m: HttpMethod)
        ensures
            m == HttpMethod::Post,
    {
        HttpMethod::Post
    }

    fn query_params(&self) -> (r: Option<QueryValues>)
        ensures
            r is None,
    {
        None
    }

    fn path_params(&self) -> (r: Vec<(&'static str, String)>)
        ensures
            r@.len() == 0,
    {
        Vec::new()
    }
}

// ---------------------------------------------------------------------------
// Stem separation
// ---------------------------------------------------------------------------

/// The stem variation to separate into.
#[derive(Clone, Copy, Debug, PartialEq, Eq, Structural)]
pub enum StemVariation {
    /// Two stems.
    TwoStems,
    /// Six stems.
    SixStems,
}

impl Default for StemVariation {
    fn default() -> (r: Self)
        ensures
            r == StemVariation::SixStems,
    {
        StemVariation::SixStems
    }
}

pub open spec fn stem_variation_name(v: StemVariation) -> Seq<char> {
    match v {
        StemVariation::TwoStems => "two_stems_v1"@,
        StemVariation::SixStems => "six_stems_v1"@,
    }
}

/// The name of each stem variation.
pub proof fn lemma_stem_variation_name_table()
    ensures
        stem_variation_name(StemVariation::TwoStems) == "two_stems_v1"@,
        stem_variation_name(StemVariation::SixStems) == "six_stems_v1"@,
{
}

impl StemVariation {
    pub fn as_str(&self) -> (s: &'static str)
        ensures
            s@ == stem_variation_name(*self),
    {
        match self {
            StemVariation::TwoStems => "two_stems_v1",
            StemVariation::SixStems => "six_stems_v1",
        }
    }
}

/// Request body for [`SeparateStems`].
#[derive(Clone, Debug)]
pub struct StemSeparationBody {
    pub file: FilePart,
    pub stem_variation: StemVariation,
    pub sign_with_c2pa: bool,
}

impl StemSeparationBody {
    pub fn new(file: FilePart) -> (r: Self)
        ensures
            r.file == file,
            r.stem_variation == StemVariation::SixStems,
            !r.sign_with_c2pa,
    {
        StemSeparationBody { file, stem_variation: StemVariation::SixStems, sign_with_c2pa: false }
    }

    pub fn from_bytes(file_name: &str, mime: &str, bytes: Vec<u8>) -> (r: Self)
        ensures
            file_view(r.file) == (file_name@, Some((mime@, bytes@))),
            r.stem_variation == StemVariation::SixStems,
            !r.sign_with_c2pa,
    {
        Self::new(FilePart::bytes(file_name, mime, bytes))
    }

    pub fn with_stem_variation(self, stem_variation: StemVariation) -> (r: Self)
        ensures
            r.stem_variation == stem_variation,
            r == (Self { stem_variation: r.stem_variation, ..self }),
    {
        Self { stem_variation: stem_variation, ..self }
    }
    pub fn with_sign_with_c2pa(self, sign: bool) -> (r: Self)
        ensures
            r.sign_with_c2pa == sign,
            r == (Self { sign_with_c2pa: r.sign_with_c2pa, ..self }),
    {
        Self { sign_with_c2pa: sign, ..self }
    }

    /// The parts of the multipart form: the file, then the stem variation and
    /// the signing flag.
    pub fn form_parts(&self) -> (r: Result<Vec<FormPart>, Error>)
        ensures
            match inferred_mime_spec(self.file, mimes_for(false)) {
                Err(e) => r == Err::<Vec<FormPart>, Error>(e),
                Ok(m) => r matches Ok(v) && v@.len() == 3 && is_file_part(
                    v@[0],
                    "file"@,
                    self.file,
                    m,
                ) && is_text_part(v@[1], "stem_variation_id"@, stem_variation_name(self.stem_variation))
                    && is_text_part(v@[2], "sign_with_c2pa"@, bool_text(self.sign_with_c2pa)),
            },
    {
        let mime = match inferred_audio_mime(&self.file) {
            Ok(m) => m,
            Err(e) => return Err(e),
        };
        let mut v: Vec<FormPart> = Vec::new();
        v.push(FormPart::File { name: "file", file: self.file.copy(), mime });
        v.push(text_part("stem_variation_id", owned(self.stem_variation.as_str())));
        v.push(text_part("sign_with_c2pa", bool_to_string(self.sign_with_c2pa)));
        Ok(v)
    }
}

/// Separate an audio file into stems; the answer is a ZIP archive.
#[derive(Clone, Debug)]
pub struct SeparateStems {
    pub body: StemSeparationBody,
    pub query: Option<MusicQuery>,
}

impl SeparateStems {
    pub fn new(body: StemSeparationBody) -> (r: Self)
        ensures
            r.body == body,
            r.query is None,
    {
        SeparateStems { body, query: None }
    }

    pub fn with_query(self, query: MusicQuery) -> (r: Self)
        ensures
            r.query == Some(query),
            r == (Self { query: r.query, ..self }),
    {
        Self { query: Some(query), ..self }
    }
}

impl ElevenLabsEndpoint for SeparateStems {
    fn path(&self) -> (p: &'static str)
        ensures
            p@ == "/v1/music/stem-separation"@,
    {
        "/v1/music/stem-separation"
    }

    fn method(&self) -> (m: HttpMethod)
        ensures
            m == HttpMethod::Post,
    {
        HttpMethod::Post
    }

    fn query_params(&self) -> (r: Option<QueryValues>)
        ensures
            opt_query_view(r) == match self.query {
                Some(q) => Some(query_view(q.params@)),
                None => None::<Seq<(Seq<char>, Seq<char>)>>,
            },
    {
        match &self.query {
            Some(q) => Some(clone_query(&q.params)),
            None => None,
        }
    }

    fn path_params(&self) -> (r: Vec<(&'static str, String)>)
        ensures
            r@.len() == 0,
    {
        Vec::new()
    }
}

// ---------------------------------------------------------------------------
// Upload
// ---------------------------------------------------------------------------

/// Which composition-plan format to extract from an uploaded song.
#[derive(Clone, Copy, Debug, PartialEq, Eq, Structural)]
pub enum ExtractCompositionPlan {
    V1,
    V2,
}

pub open spec fn extract_plan_name(v: ExtractCompositionPlan) -> Seq<char> {
    match v {
        ExtractCompositionPlan::V1 => "music_v1"@,
        ExtractCompositionPlan::V2 => "music_v2"@,
    }
}

/// The name of each choice of composition plan to extract.
pub proof fn lemma_extract_plan_name_table()
    ensures
        extract_plan_name(ExtractCompositionPlan::V1) == "music_v1"@,
        extract_plan_name(ExtractCompositionPlan::V2) == "music_v2"@,
{
}

impl ExtractCompositionPlan {
    pub fn as_str(&self) -> (s: &'static str)
        ensures
            s@ == extract_plan_name(*self),
    {
        match self {
            ExtractCompositionPlan::V1 => "music_v1",
            ExtractCompositionPlan::V2 => "music_v2",
        }
    }
}

/// Request body for [`UploadMusic`].
#[derive(Clone, Debug)]
pub struct UploadMusicBody {
    pub file: FilePart,
    pub extract_composition_plan: Option<ExtractCompositionPlan>,
    pub with_timestamps: bool,
}

impl UploadMusicBody {
    pub fn new(file: FilePart) -> (r: Self)
        ensures
            r.file == file,
            r.extract_composition_plan is None,
            !r.with_timestamps,
    {
        UploadMusicBody { file, extract_composition_plan: None, with_timestamps: false }
    }

    pub fn from_bytes(file_name: &str, mime: &str, bytes: Vec<u8>) -> (r: Self)
        ensures
            file_view(r.file) == (file_name@, Some((mime@, bytes@))),
            r.extract_composition_plan is None,
            !r.with_timestamps,
    {
        Self::new(FilePart::bytes(file_name, mime, bytes))
    }

    pub fn with_extract_composition_plan(self, format: ExtractCompositionPlan) -> (r: Self)
        ensures
            r.extract_composition_plan == Some(format),
            r == (Self { extract_composition_plan: r.extract_composition_plan, ..self }),
    {
        Self { extract_composition_plan: Some(format), ..self }
    }
    pub fn with_timestamps(self, with_timestamps: bool) -> (r: Self)
        ensures
            r.with_timestamps == with_timestamps,
            r == (Self { with_timestamps: r.with_timestamps, ..self }),
    {
        Self { with_timestamps: with_timestamps, ..self }
    }

    /// The parts of the multipart form: the file, the plan format when one is
    /// asked for, and `with_timestamps=true` when timestamps are asked for.
    pub fn form_parts(&self) -> (r: Result<Vec<FormPart>, Error>)
        ensures
            match inferred_mime_spec(self.file, mimes_for(false)) {
                Err(e) => r == Err::<Vec<FormPart>, Error>(e),
                Ok(m) => r matches Ok(v) && is_file_part(v@[0], "file"@, self.file, m) && v@.len()
                    == 1 + (if self.extract_composition_plan is Some { 1int } else { 0 }) + (
                if self.with_timestamps {
                    1int
                } else {
                    0
                }) && (self.extract_composition_plan matches Some(f) ==> is_text_part(
                    v@[1],
                    "extract_composition_plan"@,
                    extract_plan_name(f),
                )) && (self.with_timestamps ==> is_text_part(
                    v@[v@.len() - 1],
                    "with_timestamps"@,
                    "true"@,
                )),
            },
    {
        let mime = match inferred_audio_mime(&self.file) {
            Ok(m) => m,
            Err(e) => return Err(e),
        };
        let mut v: Vec<FormPart> = Vec::new();
        v.push(FormPart::File { name: "file", file: self.file.copy(), mime });
        match self.extract_composition_plan {
            Some(f) => v.push(text_part("extract_composition_plan", owned(f.as_str()))),
            None => {},
        }
        if self.with_timestamps {
            v.push(text_part("with_timestamps", owned("true")));
        }
        Ok(v)
    }
}

/// The answer of [`UploadMusic`].
#[derive(Clone, Debug)]
pub struct MusicUploadResponse {
    pub song_id: String,
    pub composition_plan: Option<MusicCompositionPlan>,
    pub words_timestamps: Option<Vec<WordTimestamp>>,
}

/// Upload a song to be used later for inpainting.
#[derive(Clone, Debug)]
pub struct UploadMusic {
    pub body: UploadMusicBody,
}

impl UploadMusic {
    pub fn new(body: UploadMusicBody) -> (r: Self)
        ensures
            r.body == body,
    {
        UploadMusic { body }
    }
}

impl ElevenLabsEndpoint for UploadMusic {
    fn path(&self) -> (p: &'static str)
        ensures
            p@ == "/v1/music/upload"@,
    {
        "/v1/music/upload"
    }

    fn method(&self) -> (m: HttpMethod)
        ensures
            m == HttpMethod::Post,
    {
        HttpMethod::Post
    }

    fn query_params(&self) -> (r: Option<QueryValues>)
        ensures
            r is None,
    {
        None
    }

    fn path_params(&self) -> (r: Vec<(&'static str, String)>)
        ensures
            r@.len() == 0,
    {
        Vec::new()
    }
}

// ---------------------------------------------------------------------------
// Video to music
// ---------------------------------------------------------------------------

/// Request body for [`VideoToMusic`].
#[derive(Clone, Debug)]
pub struct VideoToMusicBody {
    pub videos: Vec<FilePart>,
    pub description: Option<String>,
    pub tags: Vec<String>,
    pub model_id: MusicModel,
    pub sign_with_c2pa: bool,
}

impl VideoToMusicBody {
    /// A body from one or more video files, combined in order.
    pub fn new(videos: Vec<FilePart>) -> (r: Self)
        ensures
            r.videos == videos,
            r.description is None,
            r.tags@.len() == 0,
            r.model_id == MusicModel::MusicV1,
            !r.sign_with_c2pa,
    {
        VideoToMusicBody {
            videos,
            description: None,
            tags: Vec::new(),
            model_id: MusicModel::MusicV1,
            sign_with_c2pa: false,
        }
    }

    /// Adds another video file at the end.
    pub fn add_video(self, video: FilePart) -> (r: Self)
        ensures
            r.videos@ == self.videos@.push(video),
            r == (Self { videos: r.videos, ..self }),
    {
        let mut s = self;
        s.videos.push(video);
        s
    }
    /// A description of the music wanted.
    pub fn with_description(self, description: &str) -> (r: Self)
        ensures
            r.description matches Some(s) && s@ == description@,
            r == (Self { description: r.description, ..self }),
    {
        Self { description: Some(owned(description)), ..self }
    }
    /// Style tags.
    pub fn with_tags(self, tags: &[&str]) -> (r: Self)
        ensures
            string_views(r.tags@) == str_views(tags@),
            r == (Self { tags: r.tags, ..self }),
    {
        Self { tags: strings_of(tags), ..self }
    }
    pub fn with_model(self, model_id: MusicModel) -> (r: Self)
        ensures
            r.model_id == model_id,
            r == (Self { model_id: r.model_id, ..self }),
    {
        Self { model_id: model_id, ..self }
    }
    pub fn with_sign_with_c2pa(self, sign: bool) -> (r: Self)
        ensures
            r.sign_with_c2pa == sign,
            r == (Self { sign_with_c2pa: r.sign_with_c2pa, ..self }),
    {
        Self { sign_with_c2pa: sign, ..self }
    }

    /// The parts of the multipart form: one `videos` part per video, the
    /// description when there is one, one `tags` part per tag, then the model
    /// and the signing flag.
    pub fn form_parts(&self) -> (r: Result<Vec<FormPart>, Error>)
        ensures
            match infer_all(self.videos@, mimes_for(true)) {
                Err(e) => r == Err::<Vec<FormPart>, Error>(e),
                Ok(ms) => r matches Ok(v) && {
                    let n = self.videos@.len();
                    let d = if self.description is Some { 1int } else { 0int };
                    let t = self.tags@.len();
                    &&& v@.len() == n + d + t + 2
                    &&& forall|k: int| 0 <= k < n ==> is_file_part(#[trigger] v@[k], "videos"@, self.videos@[k], ms[k])
                    &&& (self.description matches Some(s) ==> is_text_part(v@[n as int], "description"@, s@))
                    &&& forall|k: int| 0 <= k < t ==> is_text_part(#[trigger] v@[n + d + k], "tags"@, self.tags@[k]@)
                    &&& is_text_part(v@[n + d + t], "model_id"@, model_name(self.model_id))
                    &&& is_text_part(v@[n + d + t + 1], "sign_with_c2pa"@, bool_text(self.sign_with_c2pa))
                },
            },
    {
        let mut v: Vec<FormPart> = Vec::new();
        match append_file_parts(&mut v, "videos", &self.videos, true) {
            Ok(()) => {},
            Err(e) => return Err(e),
        }
        let ghost n = self.videos@.len();
        let ghost after_files = v@;
        let ghost ms = infer_all(self.videos@, mimes_for(true))->Ok_0;
        assert(infer_all(self.videos@, mimes_for(true)) is Ok);
        assert(forall|k: int| 0 <= k < n ==> is_file_part(#[trigger] after_files[0 + k], "videos"@, self.videos@[k], ms[k]));
        match &self.description {
            Some(s) => v.push(text_part("description", s.clone())),
            None => {},
        }
        let ghost after_desc = v@;
        let ghost d = v@.len() - n;
        let mut i: usize = 0;
        while i < self.tags.len()
            invariant
                0 <= i <= self.tags@.len(),
                v@.len() == after_desc.len() + i,
                v@.take(after_desc.len() as int) == after_desc,
                forall|k: int| 0 <= k < i ==> is_text_part(#[trigger] v@[after_desc.len() + k], "tags"@, self.tags@[k]@),
            decreases self.tags.len() - i,
        {
            let ghost before = v@;
            v.push(text_part("tags", self.tags[i].clone()));
            proof {
                assert(v@.take(after_desc.len() as int) =~= before.take(after_desc.len() as int));
                assert forall|k: int| 0 <= k < i + 1 implies is_text_part(#[trigger] v@[after_desc.len() + k], "tags"@, self.tags@[k]@) by {
                    if k < i {
                        assert(v@[after_desc.len() + k] == before[after_desc.len() + k]);
                    }
                }
            }
            i = i + 1;
        }
        let ghost before_tail = v@;
        v.push(text_part("model_id", owned(model_id_str(self.model_id))));
        v.push(text_part("sign_with_c2pa", bool_to_string(self.sign_with_c2pa)));
        proof {
            assert forall|k: int| 0 <= k < n implies is_file_part(#[trigger] v@[k], "videos"@, self.videos@[k], ms[k]) by {
                assert(is_file_part(after_files[0 + k], "videos"@, self.videos@[k], ms[k]));
                assert(v@[k] == before_tail[k]);
                assert(before_tail[k] == before_tail.take(after_desc.len() as int)[k]);
                assert(after_desc[k] == after_files[k]);
            }
            assert forall|k: int| 0 <= k < self.tags@.len() implies is_text_part(#[trigger] v@[n + d + k], "tags"@, self.tags@[k]@) by {
                assert(v@[n + d + k] == before_tail[n + d + k]);
            }
            if self.description is Some {
                assert(v@[n as int] == before_tail[n as int]);
                assert(before_tail[n as int] == before_tail.take(after_desc.len() as int)[n as int]);
            }
        }
        Ok(v)
    }
}

/// Generate background music from one or more videos.
#[derive(Clone, Debug)]
pub struct VideoToMusic {
    pub body: VideoToMusicBody,
    pub query: Option<MusicQuery>,
}

impl VideoToMusic {
    pub fn new(body: VideoToMusicBody) -> (r: Self)
        ensures
            r.body == body,
            r.query is None,
    {
        VideoToMusic { body, query: None }
    }

    pub fn with_query(self, query: MusicQuery) -> (r: Self)
        ensures
            r.query == Some(query),
            r == (Self { query: r.query, ..self }),
    {
        Self { query: Some(query), ..self }
    }
}

impl ElevenLabsEndpoint for VideoToMusic {
    fn path(&self) -> (p: &'static str)
        ensures
            p@ == "/v1/music/video-to-music"@,
    {
        "/v1/music/video-to-music"
    }

    fn method(&self) -> (m: HttpMethod)
        ensures
            m == HttpMethod::Post,
    {
        HttpMethod::Post
    }

    fn query_params(&self) -> (r: Option<QueryValues>)
        ensures
            opt_query_view(r) == match self.query {
                Some(q) => Some(query_view(q.params@)),
                None => None::<Seq<(Seq<char>, Seq<char>)>>,
            },
    {
        match &self.query {
            Some(q) => Some(clone_query(&q.params)),
            None => None,
        }
    }

    fn path_params(&self) -> (r: Vec<(&'static str, String)>)
        ensures
            r@.len() == 0,
    {
        Vec::new()
    }
}

// ---------------------------------------------------------------------------
// Music finetunes
// ---------------------------------------------------------------------------

/// Visibility of a music finetune as the API reports it.
#[derive(Clone, Copy, Debug, PartialEq, Eq, Structural)]
pub enum MusicFinetuneVisibility {
    Private,
    Workspace,
    Public,
    Unknown,
}

pub open spec fn visibility_name(v: MusicFinetuneVisibility) -> Seq<char> {
    match v {
        MusicFinetuneVisibility::Private => "private"@,
        MusicFinetuneVisibility::Workspace => "workspace"@,
        MusicFinetuneVisibility::Public => "public"@,
        MusicFinetuneVisibility::Unknown => "unknown"@,
    }
}

/// The name of each music finetune visibility.
pub proof fn lemma_visibility_name_table()
    ensures
        visibility_name(MusicFinetuneVisibility::Private) == "private"@,
        visibility_name(MusicFinetuneVisibility::Workspace) == "workspace"@,
        visibility_name(MusicFinetuneVisibility::Public) == "public"@,
        visibility_name(MusicFinetuneVisibility::Unknown) == "unknown"@,
{
}

impl MusicFinetuneVisibility {
    /// The wire name.
    pub fn as_str(self) -> (s: &'static str)
        ensures
            s@ == visibility_name(self),
    {
        match self {
            MusicFinetuneVisibility::Private => "private",
            MusicFinetuneVisibility::Workspace => "workspace",
            MusicFinetuneVisibility::Public => "public",
            MusicFinetuneVisibility::Unknown => "unknown",
        }
    }
}

/// Visibility accepted when creating or updating a music finetune.
#[derive(Clone, Copy, Debug, PartialEq, Eq, Structural)]
pub enum WritableMusicFinetuneVisibility {
    Private,
    Workspace,
}

pub open spec fn writable_visibility_name(v: WritableMusicFinetuneVisibility) -> Seq<char> {
    match v {
        WritableMusicFinetuneVisibility::Private => "private"@,
        WritableMusicFinetuneVisibility::Workspace => "workspace"@,
    }
}

/// The name of each writable music finetune visibility.
pub proof fn lemma_writable_visibility_name_table()
    ensures
        writable_visibility_name(WritableMusicFinetuneVisibility::Private) == "private"@,
        writable_visibility_name(WritableMusicFinetuneVisibility::Workspace) == "workspace"@,
{
}

impl WritableMusicFinetuneVisibility {
    /// The wire name.
    pub fn as_str(self) -> (s: &'static str)
        ensures
            s@ == writable_visibility_name(self),
    {
        match self {
            WritableMusicFinetuneVisibility::Private => "private",
            WritableMusicFinetuneVisibility::Workspace => "workspace",
        }
    }
}

/// Who created a music finetune.
#[derive(Clone, Copy, Debug, PartialEq, Eq, Structural)]
pub enum MusicFinetuneCreatedBy {
    CurrentUser,
    Workspace,
    Elevenlabs,
    Unknown,
}

pub open spec fn created_by_name(v: MusicFinetuneCreatedBy) -> Seq<char> {
    match v {
        MusicFinetuneCreatedBy::CurrentUser => "self"@,
        MusicFinetuneCreatedBy::Workspace => "workspace"@,
        MusicFinetuneCreatedBy::Elevenlabs => "elevenlabs"@,
        MusicFinetuneCreatedBy::Unknown => "unknown"@,
    }
}

/// The name of each creator filter of the finetune list.
pub proof fn lemma_created_by_name_table()
    ensures
        created_by_name(MusicFinetuneCreatedBy::CurrentUser) == "self"@,
        created_by_name(MusicFinetuneCreatedBy::Workspace) == "workspace"@,
        created_by_name(MusicFinetuneCreatedBy::Elevenlabs) == "elevenlabs"@,
        created_by_name(MusicFinetuneCreatedBy::Unknown) == "unknown"@,
{
}

impl MusicFinetuneCreatedBy {
    /// The wire name.
    pub fn as_str(self) -> (s: &'static str)
        ensures
            s@ == created_by_name(self),
    {
        match self {
            MusicFinetuneCreatedBy::CurrentUser => "self",
            MusicFinetuneCreatedBy::Workspace => "workspace",
            MusicFinetuneCreatedBy::Elevenlabs => "elevenlabs",
            MusicFinetuneCreatedBy::Unknown => "unknown",
        }
    }
}

/// Training state of a music finetune.
#[derive(Clone, Copy, Debug, PartialEq, Eq, Structural)]
pub enum MusicFinetuneStatus {
    Pending,
    InProgress,
    Completed,
    Failed,
    Blocked,
    Unknown,
}

/// Why training of a music finetune failed or was blocked.
#[derive(Clone, Copy, Debug, PartialEq, Eq, Structural)]
pub enum MusicFinetuneFailureReason {
    AudioProcessingFailed,
    CopyrightViolation,
    TrainingFailed,
    Unknown,
}

/// The field music finetunes are listed by.
#[derive(Clone, Copy, Debug, PartialEq, Eq, Structural)]
pub enum MusicFinetuneSort {
    CreatedAt,
    Name,
}

pub open spec fn sort_name(v: MusicFinetuneSort) -> Seq<char> {
    match v {
        MusicFinetuneSort::CreatedAt => "created_at"@,
        MusicFinetuneSort::Name => "name"@,
    }
}

/// The name of each music finetune sort.
pub proof fn lemma_sort_name_table()
    ensures
        sort_name(MusicFinetuneSort::CreatedAt) == "created_at"@,
        sort_name(MusicFinetuneSort::Name) == "name"@,
{
}

impl MusicFinetuneSort {
    /// The wire name.
    pub fn as_str(self) -> (s: &'static str)
        ensures
            s@ == sort_name(self),
    {
        match self {
            MusicFinetuneSort::CreatedAt => "created_at",
            MusicFinetuneSort::Name => "name",
        }
    }
}

/// The direction music finetunes are listed in.
#[derive(Clone, Copy, Debug, PartialEq, Eq, Structural)]
pub enum MusicFinetuneSortDirection {
    Ascending,
    Descending,
}

pub open spec fn sort_direction_name(v: MusicFinetuneSortDirection) -> Seq<char> {
    match v {
        MusicFinetuneSortDirection::Ascending => "asc"@,
        MusicFinetuneSortDirection::Descending => "desc"@,
    }
}

/// The name of each music finetune sort direction.
pub proof fn lemma_sort_direction_name_table()
    ensures
        sort_direction_name(MusicFinetuneSortDirection::Ascending) == "asc"@,
        sort_direction_name(MusicFinetuneSortDirection::Descending) == "desc"@,
{
}

impl MusicFinetuneSortDirection {
    /// The wire name.
    pub fn as_str(self) -> (s: &'static str)
        ensures
            s@ == sort_direction_name(self),
    {
        match self {
            MusicFinetuneSortDirection::Ascending => "asc",
            MusicFinetuneSortDirection::Descending => "desc",
        }
    }
}

/// Query parameters for [`ListMusicFinetunes`].
#[derive(Clone, Debug)]
pub struct MusicFinetuneQuery {
    pub params: QueryValues,
}

impl Default for MusicFinetuneQuery {
    fn default() -> (r: Self)
        ensures
            r.params@.len() == 0,
    {
        MusicFinetuneQuery { params: Vec::new() }
    }
}

impl MusicFinetuneQuery {
    pub fn with_cursor(self, cursor: &str) -> (r: Self)
        ensures
            query_view(r.params@) == query_view(self.params@).push(("cursor"@, cursor@)),
    {
        let mut s = self;
        push_query(&mut s.params, "cursor", owned(cursor));
        s
    }
    pub fn with_page_size(self, page_size: u32) -> (r: Self)
        ensures
            query_view(r.params@) == query_view(self.params@).push(("page_size"@, decimal(page_size as nat))),
    {
        let mut s = self;
        push_query(&mut s.params, "page_size", u64_to_string(page_size as u64));
        s
    }
    pub fn with_visibility(self, visibility: MusicFinetuneVisibility) -> (r: Self)
        ensures
            query_view(r.params@) == query_view(self.params@).push(("visibility"@, visibility_name(visibility))),
    {
        let mut s = self;
        push_query(&mut s.params, "visibility", owned(visibility.as_str()));
        s
    }
    pub fn with_created_by(self, created_by: MusicFinetuneCreatedBy) -> (r: Self)
        ensures
            query_view(r.params@) == query_view(self.params@).push(("created_by"@, created_by_name(created_by))),
    {
        let mut s = self;
        push_query(&mut s.params, "created_by", owned(created_by.as_str()));
        s
    }
    pub fn with_sort(self, sort: MusicFinetuneSort) -> (r: Self)
        ensures
            query_view(r.params@) == query_view(self.params@).push(("sort"@, sort_name(sort))),
    {
        let mut s = self;
        push_query(&mut s.params, "sort", owned(sort.as_str()));
        s
    }
    pub fn with_sort_direction(self, direction: MusicFinetuneSortDirection) -> (r: Self)
        ensures
            query_view(r.params@) == query_view(self.params@).push(("sort_direction"@, sort_direction_name(direction))),
    {
        let mut s = self;
        push_query(&mut s.params, "sort_direction", owned(direction.as_str()));
        s
    }
}

/// Lists the music finetunes available to the current user.
#[derive(Clone, Debug)]
pub struct ListMusicFinetunes {
    pub query: Option<MusicFinetuneQuery>,
}

impl Default for ListMusicFinetunes {
    fn default() -> (r: Self)
        ensures
            r.query is None,
    {
        ListMusicFinetunes { query: None }
    }
}

impl ListMusicFinetunes {
    pub fn new() -> (r: Self)
        ensures
            r.query is None,
    {
        ListMusicFinetunes { query: None }
    }

    pub fn with_query(self, query: MusicFinetuneQuery) -> (r: Self)
        ensures
            r.query == Some(query),
            r == (Self { query: r.query, ..self }),
    {
        Self { query: Some(query), ..self }
    }
}

impl ElevenLabsEndpoint for ListMusicFinetunes {
    fn path(&self) -> (p: &'static str)
        ensures
            p@ == "/v1/music/finetunes"@,
    {
        "/v1/music/finetunes"
    }

    fn method(&self) -> (m: HttpMethod)
        ensures
            m == HttpMethod::Get,
    {
        HttpMethod::Get
    }

    fn query_params(&self) -> (r: Option<QueryValues>)
        ensures
            opt_query_view(r) == match self.query {
                Some(q) => Some(query_view(q.params@)),
                None => None::<Seq<(Seq<char>, Seq<char>)>>,
            },
    {
        match &self.query {
            Some(q) => Some(clone_query(&q.params)),
            None => None,
        }
    }

    fn path_params(&self) -> (r: Vec<(&'static str, String)>)
        ensures
            r@.len() == 0,
    {
        Vec::new()
    }
}

/// Multipart body for [`CreateMusicFinetune`].
#[derive(Clone, Debug)]
pub struct CreateMusicFinetuneBody {
    pub name: String,
    pub primary_genre: String,
    pub files: Vec<FilePart>,
    pub tags: Vec<String>,
    pub visibility: Option<WritableMusicFinetuneVisibility>,
    pub model_id: MusicModel,
}

impl CreateMusicFinetuneBody {
    pub fn new(name: &str, primary_genre: &str) -> (r: Self)
        ensures
            r.name@ == name@,
            r.primary_genre@ == primary_genre@,
            r.files@.len() == 0,
            r.tags@.len() == 0,
            r.visibility is None,
            r.model_id == MusicModel::MusicV1,
    {
        CreateMusicFinetuneBody {
            name: owned(name),
            primary_genre: owned(primary_genre),
            files: Vec::new(),
            tags: Vec::new(),
            visibility: None,
            model_id: MusicModel::MusicV1,
        }
    }

    pub fn add_file(self, file: FilePart) -> (r: Self)
        ensures
            r.files@ == self.files@.push(file),
            r == (Self { files: r.files, ..self }),
    {
        let mut s = self;
        s.files.push(file);
        s
    }
    pub fn with_files(self, files: Vec<FilePart>) -> (r: Self)
        ensures
            r.files == files,
            r == (Self { files: r.files, ..self }),
    {
        Self { files: files, ..self }
    }
    pub fn with_tags(self, tags: &[&str]) -> (r: Self)
        ensures
            string_views(r.tags@) == str_views(tags@),
            r == (Self { tags: r.tags, ..self }),
    {
        Self { tags: strings_of(tags), ..self }
    }
    pub fn with_visibility(self, visibility: WritableMusicFinetuneVisibility) -> (r: Self)
        ensures
            r.visibility == Some(visibility),
            r == (Self { visibility: r.visibility, ..self }),
    {
        Self { visibility: Some(visibility), ..self }
    }
    pub fn with_model(self, model_id: MusicModel) -> (r: Self)
        ensures
            r.model_id == model_id,
            r == (Self { model_id: r.model_id, ..self }),
    {
        Self { model_id: model_id, ..self }
    }

    /// The parts of the multipart form: name, primary genre and model, one
    /// `files` part per file, the tags as one JSON array when there are any,
    /// and the visibility when one is set. The file parts are as
    /// [`append_file_parts`] makes them.
    pub fn form_parts(&self) -> (r: Result<Vec<FormPart>, Error>)
        ensures
            match infer_all(self.files@, mimes_for(false)) {
                Err(e) => r == Err::<Vec<FormPart>, Error>(e),
                Ok(ms) => r is Ok,
            },
            r matches Ok(v) ==> {
                let n = self.files@.len();
                let ms = infer_all(self.files@, mimes_for(false))->Ok_0;
                let t = if self.tags@.len() > 0 { 1int } else { 0int };
                &&& infer_all(self.files@, mimes_for(false)) is Ok
                &&& v@.len() == 3 + n + t + (if self.visibility is Some { 1int } else { 0int })
                &&& is_text_part(v@[0], "name"@, self.name@)
                &&& is_text_part(v@[1], "primary_genre"@, self.primary_genre@)
                &&& is_text_part(v@[2], "model_id"@, model_name(self.model_id))
                &&& forall|k: int| 0 <= k < n ==> is_file_part(#[trigger] v@[3 + k], "files"@, self.files@[k], ms[k])
                &&& (self.tags@.len() > 0 ==> is_text_part(v@[3 + n as int], "tags"@, json_string_list(string_views(self.tags@))))
                &&& (self.visibility matches Some(vis) ==> is_text_part(v@[3 + n + t], "visibility"@, writable_visibility_name(vis)))
            },
    {
        let mut v: Vec<FormPart> = Vec::new();
        v.push(text_part("name", self.name.clone()));
        v.push(text_part("primary_genre", self.primary_genre.clone()));
        v.push(text_part("model_id", owned(model_id_str(self.model_id))));
        let ghost head = v@;
        match append_file_parts(&mut v, "files", &self.files, false) {
            Ok(()) => {},
            Err(e) => return Err(e),
        }
        let ghost after_files = v@;
        let ghost n = self.files@.len();
        let ghost ms = infer_all(self.files@, mimes_for(false))->Ok_0;
        assert(forall|k: int| 0 <= k < 3 ==> after_files[k] == head[k]) by {
            assert forall|k: int| 0 <= k < 3 implies after_files[k] == head[k] by {
                assert(after_files.take(3)[k] == after_files[k]);
            }
        }
        if self.tags.len() > 0 {
            let json = json_of_strings(&self.tags);
            v.push(text_part("tags", json));
        }
        let ghost after_tags = v@;
        match self.visibility {
            Some(vis) => v.push(text_part("visibility", owned(vis.as_str()))),
            None => {},
        }
        proof {
            assert forall|k: int| 0 <= k < after_files.len() implies v@[k] == after_files[k] by {
                assert(v@[k] == after_tags[k]);
            }
            assert forall|k: int| 0 <= k < n implies is_file_part(#[trigger] v@[3 + k], "files"@, self.files@[k], ms[k]) by {
                assert(v@[3 + k] == after_files[3 + k]);
            }
            if self.tags@.len() > 0 {
                assert(v@[3 + n as int] == after_tags[3 + n as int]);
            }
        }
        Ok(v)
    }
}

/// Creates a music finetune from owned audio.
#[derive(Clone, Debug)]
pub struct CreateMusicFinetune {
    pub body: CreateMusicFinetuneBody,
}

impl CreateMusicFinetune {
    pub fn new(body: CreateMusicFinetuneBody) -> (r: Self)
        ensures
            r.body == body,
    {
        CreateMusicFinetune { body }
    }
}

impl ElevenLabsEndpoint for CreateMusicFinetune {
    fn path(&self) -> (p: &'static str)
        ensures
            p@ == "/v1/music/finetunes"@,
    {
        "/v1/music/finetunes"
    }

    fn method(&self) -> (m: HttpMethod)
        ensures
            m == HttpMethod::Post,
    {
        HttpMethod::Post
    }

    fn query_params(&self) -> (r: Option<QueryValues>)
        ensures
            r is None,
    {
        None
    }

    fn path_params(&self) -> (r: Vec<(&'static str, String)>)
        ensures
            r@.len() == 0,
    {
        Vec::new()
    }
}

/// Retrieves one music finetune.
#[derive(Clone, Debug)]
pub struct GetMusicFinetune {
    pub finetune_id: String,
}

impl GetMusicFinetune {
    pub fn new(finetune_id: &str) -> (r: Self)
        ensures
            r.finetune_id@ == finetune_id@,
    {
        GetMusicFinetune { finetune_id: owned(finetune_id) }
    }
}

impl ElevenLabsEndpoint for GetMusicFinetune {
    fn path(&self) -> (p: &'static str)
        ensures
            p@ == "/v1/music/finetunes/:finetune_id"@,
    {
        "/v1/music/finetunes/:finetune_id"
    }

    fn method(&self) -> (m: HttpMethod)
        ensures
            m == HttpMethod::Get,
    {
        HttpMethod::Get
    }

    fn query_params(&self) -> (r: Option<QueryValues>)
        ensures
            r is None,
    {
        None
    }

    fn path_params(&self) -> (r: Vec<(&'static str, String)>)
        ensures
            r@.len() == 1,
            r@[0].0@ == ":finetune_id"@ && r@[0].1@ == self.finetune_id@,
    {
        let mut v: Vec<(&'static str, String)> = Vec::new();
        v.push((":finetune_id", self.finetune_id.clone()));
        v
    }
}

/// Fields accepted by [`UpdateMusicFinetune`].
#[derive(Clone, Debug)]
pub struct UpdateMusicFinetuneBody {
    pub name: Option<String>,
    pub tags: Option<Vec<String>>,
    pub primary_genre: Option<String>,
    pub visibility: Option<WritableMusicFinetuneVisibility>,
}

impl Default for UpdateMusicFinetuneBody {
    fn default() -> (r: Self)
        ensures
            r.name is None,
            r.tags is None,
            r.primary_genre is None,
            r.visibility is None,
    {
        UpdateMusicFinetuneBody { name: None, tags: None, primary_genre: None, visibility: None }
    }
}

impl UpdateMusicFinetuneBody {
    pub fn with_name(self, name: &str) -> (r: Self)
        ensures
            r.name matches Some(s) && s@ == name@,
            r == (Self { name: r.name, ..self }),
    {
        Self { name: Some(owned(name)), ..self }
    }
    pub fn with_tags(self, tags: &[&str]) -> (r: Self)
        ensures
            r.tags matches Some(v) && string_views(v@) == str_views(tags@),
            r == (Self { tags: r.tags, ..self }),
    {
        Self { tags: Some(strings_of(tags)), ..self }
    }
    pub fn with_primary_genre(self, primary_genre: &str) -> (r: Self)
        ensures
            r.primary_genre matches Some(s) && s@ == primary_genre@,
            r == (Self { primary_genre: r.primary_genre, ..self }),
    {
        Self { primary_genre: Some(owned(primary_genre)), ..self }
    }
    pub fn with_visibility(self, visibility: WritableMusicFinetuneVisibility) -> (r: Self)
        ensures
            r.visibility == Some(visibility),
            r == (Self { visibility: r.visibility, ..self }),
    {
        Self { visibility: Some(visibility), ..self }
    }
}

/// Updates the metadata or visibility of a music finetune.
#[derive(Clone, Debug)]
pub struct UpdateMusicFinetune {
    pub finetune_id: String,
    pub body: UpdateMusicFinetuneBody,
}

impl UpdateMusicFinetune {
    pub fn new(finetune_id: &str, body: UpdateMusicFinetuneBody) -> (r: Self)
        ensures
            r.finetune_id@ == finetune_id@,
            r.body == body,
    {
        UpdateMusicFinetune { finetune_id: owned(finetune_id), body }
    }
}

impl ElevenLabsEndpoint for UpdateMusicFinetune {
    fn path(&self) -> (p: &'static str)
        ensures
            p@ == "/v1/music/finetunes/:finetune_id"@,
    {
        "/v1/music/finetunes/:finetune_id"
    }

    fn method(&self) -> (m: HttpMethod)
        ensures
            m == HttpMethod::Patch,
    {
        HttpMethod::Patch
    }

    fn query_params(&self) -> (r: Option<QueryValues>)
        ensures
            r is None,
    {
        None
    }

    fn path_params(&self) -> (r: Vec<(&'static str, String)>)
        ensures
            r@.len() == 1,
            r@[0].0@ == ":finetune_id"@ && r@[0].1@ == self.finetune_id@,
    {
        let mut v: Vec<(&'static str, String)> = Vec::new();
        v.push((":finetune_id", self.finetune_id.clone()));
        v
    }
}

/// Deletes a music finetune.
#[derive(Clone, Debug)]
pub struct DeleteMusicFinetune {
    pub finetune_id: String,
}

impl DeleteMusicFinetune {
    pub fn new(finetune_id: &str) -> (r: Self)
        ensures
            r.finetune_id@ == finetune_id@,
    {
        DeleteMusicFinetune { finetune_id: owned(finetune_id) }
    }
}

impl ElevenLabsEndpoint for DeleteMusicFinetune {
    fn path(&self) -> (p: &'static str)
        ensures
            p@ == "/v1/music/finetunes/:finetune_id"@,
    {
        "/v1/music/finetunes/:finetune_id"
    }

    fn method(&self) -> (m: HttpMethod)
        ensures
            m == HttpMethod::Delete,
    {
        HttpMethod::Delete
    }

    fn query_params(&self) -> (r: Option<QueryValues>)
        ensures
            r is None,
    {
        None
    }

    fn path_params(&self) -> (r: Vec<(&'static str, String)>)
        ensures
            r@.len() == 1,
            r@[0].0@ == ":finetune_id"@ && r@[0].1@ == self.finetune_id@,
    {
        let mut v: Vec<(&'static str, String)> = Vec::new();
        v.push((":finetune_id", self.finetune_id.clone()));
        v
    }
}

} // verus!
