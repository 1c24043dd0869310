//! The dubbing endpoints: dub a video or audio file into another language
//! and fetch the results.
use vstd::prelude::*;

use crate::endpoints::ElevenLabsEndpoint;
use crate::error::Error;
use crate::shared::{
    clone_query, is_text_part, opt_query_view, push_query, query_view, text_part, FilePart, FormPart, HttpMethod, QueryValues,
};

use crate::shared::{extension_of, file_view};
use crate::text::{bool_text, bool_to_string, decimal, opt_view, owned, str_eq, u64_to_string};

verus! {

broadcast use vstd::string::group_string_axioms;

/// What to dub, into which language, and how. Start and end times are held
/// as the decimal text of seconds that the form carries.
#[derive(Clone, Debug)]
pub struct DubbingBody {
    pub file: Option<String>,
    pub name: Option<String>,
    pub source_url: Option<String>,
    pub source_lang: Option<String>,
    pub target_lang: Option<String>,
    pub num_speakers: Option<u32>,
    pub watermark: Option<bool>,
    pub start_time: Option<String>,
    pub end_time: Option<String>,
    pub highest_resolution: Option<bool>,
    pub drop_background_audio: Option<bool>,
    pub use_profanity_filter: Option<bool>,
}

impl DubbingBody {
    pub fn new(target_lang: &str) -> (r: Self)
        ensures
            r.target_lang matches Some(t) && t@ == target_lang@,
            r.file is None && r.name is None && r.source_url is None && r.source_lang is None,
            r.num_speakers is None && r.watermark is None && r.highest_resolution is None,
            r.start_time is None && r.end_time is None,
            r.drop_background_audio is None && r.use_profanity_filter is None,
    {
        DubbingBody {
            file: None,
            name: None,
            source_url: None,
            source_lang: None,
            target_lang: Some(owned(target_lang)),
            num_speakers: None,
            watermark: None,
            start_time: None,
            end_time: None,
            highest_resolution: None,
            drop_background_audio: None,
            use_profanity_filter: None,
        }
    }

    pub fn with_file(self, file: &str) -> (r: Self)
        ensures
            r.file matches Some(s) && s@ == file@,
            r == (Self { file: r.file, ..self }),
    {
        Self { file: Some(owned(file)), ..self }
    }
    pub fn with_name(self, name: &str) -> (r: Self)
        ensures
            r.name matches Some(s) && s@ == name@,
            r == (Self { name: r.name, ..self }),
    {
        Self { name: Some(owned(name)), ..self }
    }
    pub fn with_source_url(self, source_url: &str) -> (r: Self)
        ensures
            r.source_url matches Some(s) && s@ == source_url@,
            r == (Self { source_url: r.source_url, ..self }),
    {
        Self { source_url: Some(owned(source_url)), ..self }
    }
    pub fn with_source_lang(self, source_language: &str) -> (r: Self)
        ensures
            r.source_lang matches Some(s) && s@ == source_language@,
            r == (Self { source_lang: r.source_lang, ..self }),
    {
        Self { source_lang: Some(owned(source_language)), ..self }
    }
    pub fn with_num_speakers(self, num_speakers: u32) -> (r: Self)
        ensures
            r.num_speakers == Some(num_speakers),
            r == (Self { num_speakers: r.num_speakers, ..self }),
    {
        Self { num_speakers: Some(num_speakers), ..self }
    }
    pub fn with_watermark(self, watermark: bool) -> (r: Self)
        ensures
            r.watermark == Some(watermark),
            r == (Self { watermark: r.watermark, ..self }),
    {
        Self { watermark: Some(watermark), ..self }
    }
    /// Dubs from `start_time` seconds, written as a decimal.
    pub fn with_start_time(self, start_time: &str) -> (r: Self)
        ensures
            r.start_time matches Some(s) && s@ == start_time@,
            r == (Self { start_time: r.start_time, ..self }),
    {
        Self { start_time: Some(owned(start_time)), ..self }
    }
    /// Dubs up to `end_time` seconds, written as a decimal.
    pub fn with_end_time(self, end_time: &str) -> (r: Self)
        ensures
            r.end_time matches Some(s) && s@ == end_time@,
            r == (Self { end_time: r.end_time, ..self }),
    {
        Self { end_time: Some(owned(end_time)), ..self }
    }
    pub fn with_highest_resolution(self, highest_resolution: bool) -> (r: Self)
        ensures
            r.highest_resolution == Some(highest_resolution),
            r == (Self { highest_resolution: r.highest_resolution, ..self }),
    {
        Self { highest_resolution: Some(highest_resolution), ..self }
    }
    pub fn with_drop_background_audio(self, drop_background_audio: bool) -> (r: Self)
        ensures
            r.drop_background_audio == Some(drop_background_audio),
            r == (Self { drop_background_audio: r.drop_background_audio, ..self }),
    {
        Self { drop_background_audio: Some(drop_background_audio), ..self }
    }
    pub fn with_use_profanity_filter(self, use_profanity_filter: bool) -> (r: Self)
        ensures
            r.use_profanity_filter == Some(use_profanity_filter),
            r == (Self { use_profanity_filter: r.use_profanity_filter, ..self }),
    {
        Self { use_profanity_filter: Some(use_profanity_filter), ..self }
    }

    /// The text fields of the form, in this order and when set: source
    /// URL, source language, target language, speaker count, watermark,
    /// start and end time, highest resolution,
    /// background audio, profanity filter.
    pub fn text_fields(&self) -> (r: QueryValues)
        ensures
            query_view(r@) == dubbing_texts(*self),
    {
        let mut v: QueryValues = Vec::new();
        assert(query_view(v@) =~= seq![]);
        push_opt(&mut v, "source_url", clone_opt(&self.source_url));
        push_opt(&mut v, "source_lang", clone_opt(&self.source_lang));
        push_opt(&mut v, "target_lang", clone_opt(&self.target_lang));
        let n = match self.num_speakers {
            Some(n) => Some(u64_to_string(n as u64)),
            None => None,
        };
        push_opt(&mut v, "num_speakers", n);
        push_opt(&mut v, "watermark", bool_opt(self.watermark));
        push_opt(&mut v, "start_time", clone_opt(&self.start_time));
        push_opt(&mut v, "end_time", clone_opt(&self.end_time));
        push_opt(&mut v, "highest_resolution", bool_opt(self.highest_resolution));
        push_opt(&mut v, "drop_background_audio", bool_opt(self.drop_background_audio));
        push_opt(&mut v, "use_profanity_filter", bool_opt(self.use_profanity_filter));
        assert(seq![] + opt_field("source_url"@, opt_view(self.source_url)) =~= opt_field("source_url"@, opt_view(self.source_url)));
        v
    }

    /// The multipart form: the file at `file`, when one is given, sent with
    /// `file_bytes` (its contents, which the caller read first) under its
    /// path as `video/mp4` for an `mp4` extension or `audio/mp3` for `mp3`
    /// (any other extension is refused), then the text fields. Without a
    /// file, `file_bytes` is not used.
    pub fn form_parts(&self, file_bytes: Vec<u8>) -> (r: Result<Vec<FormPart>, Error>)
        ensures
            match dubbing_file_mime(self.file) {
                Err(e) => r == Err::<Vec<FormPart>, Error>(e),
                Ok(m) => r matches Ok(v) && {
                    let k = if m is Some { 1int } else { 0int };
                    let t = dubbing_texts(*self);
                    &&& v@.len() == k + t.len()
                    &&& (m matches Some(mime) ==> (self.file matches Some(p) && (v@[0] matches FormPart::File {
                        name: n,
                        file: f,
                        mime: Some(mm),
                    } && n@ == "file"@ && file_view(f) == (p@, Some((mime, file_bytes@))) && mm@ == mime)))
                    &&& forall|i: int| 0 <= i < t.len() ==> is_text_part(#[trigger] v@[k + i], t[i].0, t[i].1)
                },
            },
    {
        let mut v: Vec<FormPart> = Vec::new();
        match &self.file {
            Some(path) => {
                let m = match dubbing_mime(path.as_str()) {
                    Ok(m) => m,
                    Err(e) => return Err(e),
                };
                let file = FilePart::Bytes { file_name: path.clone(), mime: owned(m), bytes: file_bytes };
                v.push(FormPart::File { name: "file", file, mime: Some(owned(m)) });
            },
            None => {},
        }
        let k = v.len();
        let fields = self.text_fields();
        let ghost t = query_view(fields@);
        let mut i: usize = 0;
        while i < fields.len()
            invariant
                0 <= i <= fields@.len(),
                t == query_view(fields@),
                v@.len() == k + i,
                k <= 1,
                k == 1 ==> (self.file matches Some(p) && v@[0] matches FormPart::File { name: n, file: f, mime: Some(mm) } && n@ == "file"@ && file_view(f) == (p@, Some((mm@, file_bytes@))) && mm@ == dubbing_file_mime(self.file)->Ok_0->0),
                k == 0 ==> self.file is None,
                forall|j: int| 0 <= j < i ==> is_text_part(#[trigger] v@[k + j], t[j].0, t[j].1),
            decreases fields.len() - i,
        {
            let ghost before = v@;
            let (name, value) = &fields[i];
            v.push(text_part(*name, value.clone()));
            proof {
                assert forall|j: int| 0 <= j < i + 1 implies is_text_part(#[trigger] v@[k + j], t[j].0, t[j].1) by {
                    if j < i {
                        assert(v@[k + j] == before[k + j]);
                    }
                }
            }
            i = i + 1;
        }
        Ok(v)
    }
}

/// A text field when the value is set.
pub open spec fn opt_field(name: Seq<char>, value: Option<Seq<char>>) -> Seq<(Seq<char>, Seq<char>)> {
    match value {
        Some(v) => seq![(name, v)],
        None => seq![],
    }
}

pub open spec fn opt_bool_view(b: Option<bool>) -> Option<Seq<char>> {
    match b {
        Some(b) => Some(bool_text(b)),
        None => None,
    }
}

pub open spec fn opt_u32_view(n: Option<u32>) -> Option<Seq<char>> {
    match n {
        Some(n) => Some(decimal(n as nat)),
        None => None,
    }
}

/// The text fields of a dubbing form, in order.
pub open spec fn dubbing_texts(b: DubbingBody) -> Seq<(Seq<char>, Seq<char>)> {
    opt_field("source_url"@, opt_view(b.source_url)) + opt_field("source_lang"@, opt_view(b.source_lang))
        + opt_field("target_lang"@, opt_view(b.target_lang)) + opt_field("num_speakers"@, opt_u32_view(b.num_speakers))
        + opt_field("watermark"@, opt_bool_view(b.watermark)) + opt_field("start_time"@, opt_view(b.start_time))
        + opt_field("end_time"@, opt_view(b.end_time)) + opt_field("highest_resolution"@, opt_bool_view(b.highest_resolution))
        + opt_field("drop_background_audio"@, opt_bool_view(b.drop_background_audio))
        + opt_field("use_profanity_filter"@, opt_bool_view(b.use_profanity_filter))
}

/// The MIME type a dubbing file is sent with, from its extension.
pub open spec fn dubbing_file_mime(file: Option<String>) -> Result<Option<Seq<char>>, Error> {
    match file {
        None => Ok(None),
        Some(p) => match extension_of(p@) {
            None => Err(Error::FileExtensionNotFound),
            Some(e) => if e == "mp4"@ {
                Ok(Some("video/mp4"@))
            } else if e == "mp3"@ {
                Ok(Some("audio/mp3"@))
            } else {
                Err(Error::FileExtensionNotSupported)
            },
        },
    }
}

fn dubbing_mime(path: &str) -> (r: Result<&'static str, Error>)
    ensures
        match extension_of(path@) {
            None => r matches Err(Error::FileExtensionNotFound),
            Some(e) => if e == "mp4"@ {
                r matches Ok(m) && m@ == "video/mp4"@
            } else if e == "mp3"@ {
                r matches Ok(m) && m@ == "audio/mp3"@
            } else {
                r matches Err(Error::FileExtensionNotSupported)
            },
        },
{
    let f = FilePart::Path(owned(path));
    let ext = match f.extension() {
        Ok(e) => e,
        Err(e) => return Err(e),
    };
    if str_eq(ext.as_str(), "mp4") {
        Ok("video/mp4")
    } else if str_eq(ext.as_str(), "mp3") {
        Ok("audio/mp3")
    } else {
        Err(Error::FileExtensionNotSupported)
    }
}

pub(crate) fn push_opt(v: &mut QueryValues, name: &'static str, value: Option<String>)
    ensures
        query_view(final(v)@) == query_view(old(v)@) + opt_field(name@, opt_view(value)),
{
    let ghost before = query_view(v@);
    match value {
        Some(s) => {
            let ghost sv = s@;
            push_query(v, name, s);
            assert(before.push((name@, sv)) =~= before + seq![(name@, sv)]);
        },
        None => {
            assert(before + seq![] =~= before);
        },
    }
}

pub(crate) fn clone_opt(o: &Option<String>) -> (r: Option<String>)
    ensures
        opt_view(r) == opt_view(*o),
{
    match o {
        Some(s) => Some(s.clone()),
        None => None,
    }
}

pub(crate) fn bool_opt(b: Option<bool>) -> (r: Option<String>)
    ensures
        opt_view(r) == opt_bool_view(b),
{
    match b {
        Some(b) => Some(bool_to_string(b)),
        None => None,
    }
}

/// Dubs a video or audio file.
#[derive(Clone, Debug)]
pub struct DubAVideoOrAnAudioFile {
    pub body: DubbingBody,
}

impl DubAVideoOrAnAudioFile {
    pub fn new(body: DubbingBody) -> (r: Self)
        ensures
            r.body == body,
    {
        DubAVideoOrAnAudioFile { body }
    }
}

impl ElevenLabsEndpoint for DubAVideoOrAnAudioFile {
    fn path(&self) -> (p: &'static str)
        ensures
            p@ == "v1/dubbing"@,
    {
        "v1/dubbing"
    }

    fn method(&self) -> (m: HttpMethod)
        ensures
            m == HttpMethod::Post,
    {
        HttpMethod::Post
    }

    fn query_params(&self) -> (r: Option<QueryValues>)
        ensures
            r is None,
    {
        None
    }

    fn path_params(&self) -> (r: Vec<(&'static str, String)>)
        ensures
            r@.len() == 0,
    {
        Vec::new()
    }
}

/// Retrieves a dubbing project.
#[derive(Clone, Debug)]
pub struct GetDubbing {
    pub dubbing_id: String,
}

impl GetDubbing {
    pub fn new(dubbing_id: &str) -> (r: Self)
        ensures
            r.dubbing_id@ == dubbing_id@,
    {
        GetDubbing { dubbing_id: owned(dubbing_id) }
    }
}

impl ElevenLabsEndpoint for GetDubbing {
    fn path(&self) -> (p: &'static str)
        ensures
            p@ == "v1/dubbing/:dubbing_id"@,
    {
        "v1/dubbing/:dubbing_id"
    }

    fn method(&self) -> (m: HttpMethod)
        ensures
            m == HttpMethod::Get,
    {
        HttpMethod::Get
    }

    fn query_params(&self) -> (r: Option<QueryValues>)
        ensures
            r is None,
    {
        None
    }

    fn path_params(&self) -> (r: Vec<(&'static str, String)>)
        ensures
            r@.len() == 1,
            r@[0].0@ == ":dubbing_id"@ && r@[0].1@ == self.dubbing_id@,
    {
        let mut v: Vec<(&'static str, String)> = Vec::new();
        v.push((":dubbing_id", self.dubbing_id.clone()));
        v
    }
}

/// Fetches the dubbed audio in one language.
#[derive(Clone, Debug)]
pub struct GetDubbedAudio {
    pub dubbing_id: String,
    pub language_code_id: String,
}

impl GetDubbedAudio {
    pub fn new(dubbing_id: &str, language_code_id: &str) -> (r: Self)
        ensures
            r.dubbing_id@ == dubbing_id@,
            r.language_code_id@ == language_code_id@,
    {
        GetDubbedAudio { dubbing_id: owned(dubbing_id), language_code_id: owned(language_code_id) }
    }
}

impl ElevenLabsEndpoint for GetDubbedAudio {
    fn path(&self) -> (p: &'static str)
        ensures
            p@ == "v1/dubbing/:dubbing_id/audio/:language_code"@,
    {
        "v1/dubbing/:dubbing_id/audio/:language_code"
    }

    fn method(&self) -> (m: HttpMethod)
        ensures
            m == HttpMethod::Get,
    {
        HttpMethod::Get
    }

    fn query_params(&self) -> (r: Option<QueryValues>)
        ensures
            r is None,
    {
        None
    }

    fn path_params(&self) -> (r: Vec<(&'static str, String)>)
        ensures
            r@.len() == 2,
            r@[0].0@ == ":dubbing_id"@ && r@[0].1@ == self.dubbing_id@,
            r@[1].0@ == ":language_code"@ && r@[1].1@ == self.language_code_id@,
    {
        let mut v: Vec<(&'static str, String)> = Vec::new();
        v.push((":dubbing_id", self.dubbing_id.clone()));
        v.push((":language_code", self.language_code_id.clone()));
        v
    }
}

/// Deletes a dubbing project.
#[derive(Clone, Debug)]
pub struct DeleteDubbing {
    pub dubbing_id: String,
}

impl DeleteDubbing {
    pub fn new(dubbing_id: &str) -> (r: Self)
        ensures
            r.dubbing_id@ == dubbing_id@,
    {
        DeleteDubbing { dubbing_id: owned(dubbing_id) }
    }
}

impl ElevenLabsEndpoint for DeleteDubbing {
    fn path(&self) -> (p: &'static str)
        ensures
            p@ == "v1/dubbing/:dubbing_id"@,
    {
        "v1/dubbing/:dubbing_id"
    }

    fn method(&self) -> (m: HttpMethod)
        ensures
            m == HttpMethod::Delete,
    {
        HttpMethod::Delete
    }

    fn query_params(&self) -> (r: Option<QueryValues>)
        ensures
            r is None,
    {
        None
    }

    fn path_params(&self) -> (r: Vec<(&'static str, String)>)
        ensures
            r@.len() == 1,
            r@[0].0@ == ":dubbing_id"@ && r@[0].1@ == self.dubbing_id@,
    {
        let mut v: Vec<(&'static str, String)> = Vec::new();
        v.push((":dubbing_id", self.dubbing_id.clone()));
        v
    }
}

/// What a dubbing project reports.
#[derive(Clone, Debug)]
pub struct GetDubbingResponse {
    pub dubbing_id: String,
    pub name: String,
    pub status: String,
    pub target_languages: Vec<String>,
    pub error: Option<String>,
}

/// The formats of a dubbed transcript.
#[derive(Clone, Copy, Debug, PartialEq, Eq, Structural)]
pub enum TranscriptFormat {
    Srt,
    WebVtt,
}

pub open spec fn transcript_format_name(v: TranscriptFormat) -> Seq<char> {
    match v {
        TranscriptFormat::Srt => "srt"@,
        TranscriptFormat::WebVtt => "webvtt"@,
    }
}

impl TranscriptFormat {
    /// The wire name.
    pub fn as_str(self) -> (s: &'static str)
        ensures
            s@ == transcript_format_name(self),
    {
        match self {
            TranscriptFormat::Srt => "srt",
            TranscriptFormat::WebVtt => "webvtt",
        }
    }
}

/// Query parameters for a dubbed transcript.
#[derive(Clone, Debug)]
pub struct GetDubbedTranscriptQuery {
    pub params: QueryValues,
}

impl Default for GetDubbedTranscriptQuery {
    fn default() -> (r: Self)
        ensures
            r.params@.len() == 0,
    {
        GetDubbedTranscriptQuery { params: Vec::new() }
    }
}

impl GetDubbedTranscriptQuery {
    pub fn with_format(self, format: TranscriptFormat) -> (r: Self)
        ensures
            query_view(r.params@) == query_view(self.params@).push(("format_type"@, transcript_format_name(format))),
    {
        let mut s = self;
        push_query(&mut s.params, "format_type", owned(format.as_str()));
        s
    }
}

/// Fetches the dubbed transcript in one language.
#[derive(Clone, Debug)]
pub struct GetDubbedTranscript {
    pub dubbing_id: String,
    pub language_code_id: String,
    pub query: Option<GetDubbedTranscriptQuery>,
}

impl GetDubbedTranscript {
    pub fn new(dubbing_id: &str, language_code_id: &str) -> (r: Self)
        ensures
            r.dubbing_id@ == dubbing_id@,
            r.language_code_id@ == language_code_id@,
            r.query is None,
    {
        GetDubbedTranscript { dubbing_id: owned(dubbing_id), language_code_id: owned(language_code_id), query: None }
    }

    pub fn with_query(self, query: GetDubbedTranscriptQuery) -> (r: Self)
        ensures
            r.query == Some(query),
            r == (Self { query: r.query, ..self }),
    {
        Self { query: Some(query), ..self }
    }
}

impl ElevenLabsEndpoint for GetDubbedTranscript {
    fn path(&self) -> (p: &'static str)
        ensures
            p@ == "v1/dubbing/:dubbing_id/transcript/:language_code"@,
    {
        "v1/dubbing/:dubbing_id/transcript/:language_code"
    }

    fn method(&self) -> (m: HttpMethod)
        ensures
            m == HttpMethod::Get,
    {
        HttpMethod::Get
    }

    fn query_params(&self) -> (r: Option<QueryValues>)
        ensures
            opt_query_view(r) == match self.query {
                Some(q) => Some(query_view(q.params@)),
                None => None::<Seq<(Seq<char>, Seq<char>)>>,
            },
    {
        match &self.query {
            Some(q) => Some(clone_query(&q.params)),
            None => None,
        }
    }

    fn path_params(&self) -> (r: Vec<(&'static str, String)>)
        ensures
            r@.len() == 2,
            r@[0].0@ == ":dubbing_id"@ && r@[0].1@ == self.dubbing_id@,
            r@[1].0@ == ":language_code"@ && r@[1].1@ == self.language_code_id@,
    {
        let mut v: Vec<(&'static str, String)> = Vec::new();
        v.push((":dubbing_id", self.dubbing_id.clone()));
        v.push((":language_code", self.language_code_id.clone()));
        v
    }
}

} // verus!
