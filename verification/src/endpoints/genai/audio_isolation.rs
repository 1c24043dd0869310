//! The audio isolation endpoints: remove background noise from a recording.
use vstd::prelude::*;

use crate::endpoints::ElevenLabsEndpoint;
use crate::error::Error;
use crate::shared::{
    clone_query, file_view, inferred_audio_mime, inferred_mime_spec, is_file_part, mimes_for, opt_query_view, push_query, query_view, FilePart, FormPart, HttpMethod, QueryValues,
};
use crate::text::{decimal, owned, u64_to_string};

verus! {

broadcast use vstd::string::group_string_axioms;

/// The audio file whose voice is isolated.
#[derive(Clone, Debug)]
pub struct AudioIsolationBody {
    pub audio_file: FilePart,
}

impl AudioIsolationBody {
    pub fn new(audio_file: FilePart) -> (r: Self)
        ensures
            r.audio_file == audio_file,
    {
        AudioIsolationBody { audio_file }
    }

    pub fn from_bytes(file_name: &str, mime: &str, bytes: Vec<u8>) -> (r: Self)
        ensures
            file_view(r.audio_file) == (file_name@, Some((mime@, bytes@))),
    {
        Self::new(FilePart::bytes(file_name, mime, bytes))
    }

    /// A body for the file at `path`.
    pub fn from_path(path: &str) -> (r: Self)
        ensures
            file_view(r.audio_file) == (path@, None::<(Seq<char>, Seq<u8>)>),
    {
        Self::new(FilePart::path(path))
    }

    /// The multipart form: the file as the `audio` part.
    pub fn form_parts(&self) -> (r: Result<Vec<FormPart>, Error>)
        ensures
            match inferred_mime_spec(self.audio_file, mimes_for(false)) {
                Err(e) => r == Err::<Vec<FormPart>, Error>(e),
                Ok(m) => r matches Ok(v) && v@.len() == 1 && is_file_part(v@[0], "audio"@, self.audio_file, m),
            },
    {
        let mime = match inferred_audio_mime(&self.audio_file) {
            Ok(m) => m,
            Err(e) => return Err(e),
        };
        let mut v: Vec<FormPart> = Vec::new();
        v.push(FormPart::File { name: "audio", file: self.audio_file.copy(), mime });
        Ok(v)
    }
}

/// Removes background noise from an audio file.
#[derive(Clone, Debug)]
pub struct AudioIsolation {
    pub body: AudioIsolationBody,
}

impl AudioIsolation {
    pub fn new(body: AudioIsolationBody) -> (r: Self)
        ensures
            r.body == body,
    {
        AudioIsolation { body }
    }
}

impl ElevenLabsEndpoint for AudioIsolation {
    fn path(&self) -> (p: &'static str)
        ensures
            p@ == "v1/audio-isolation"@,
    {
        "v1/audio-isolation"
    }

    fn method(&self) -> (m: HttpMethod)
        ensures
            m == HttpMethod::Post,
    {
        HttpMethod::Post
    }

    fn query_params(&self) -> (r: Option<QueryValues>)
        ensures
            r is None,
    {
        None
    }

    fn path_params(&self) -> (r: Vec<(&'static str, String)>)
        ensures
            r@.len() == 0,
    {
        Vec::new()
    }
}

/// Removes background noise and streams the result.
#[derive(Clone, Debug)]
pub struct AudioIsolationStream {
    pub body: AudioIsolationBody,
}

impl AudioIsolationStream {
    pub fn new(body: AudioIsolationBody) -> (r: Self)
        ensures
            r.body == body,
    {
        AudioIsolationStream { body }
    }
}

impl ElevenLabsEndpoint for AudioIsolationStream {
    fn path(&self) -> (p: &'static str)
        ensures
            p@ == "v1/audio-isolation/stream"@,
    {
        "v1/audio-isolation/stream"
    }

    fn method(&self) -> (m: HttpMethod)
        ensures
            m == HttpMethod::Post,
    {
        HttpMethod::Post
    }

    fn query_params(&self) -> (r: Option<QueryValues>)
        ensures
            r is None,
    {
        None
    }

    fn path_params(&self) -> (r: Vec<(&'static str, String)>)
        ensures
            r@.len() == 0,
    {
        Vec::new()
    }
}

/// Query parameters for the audio isolation history.
#[derive(Clone, Debug)]
pub struct AudioIsolationHistoryQuery {
    pub params: QueryValues,
}

impl Default for AudioIsolationHistoryQuery {
    fn default() -> (r: Self)
        ensures
            r.params@.len() == 0,
    {
        AudioIsolationHistoryQuery { params: Vec::new() }
    }
}

impl AudioIsolationHistoryQuery {
    pub fn with_page_size(self, page_size: u16) -> (r: Self)
        ensures
            query_view(r.params@) == query_view(self.params@).push(("page_size"@, decimal(page_size as nat))),
    {
        let mut s = self;
        push_query(&mut s.params, "page_size", u64_to_string(page_size as u64));
        s
    }
    pub fn with_page(self, page: u32) -> (r: Self)
        ensures
            query_view(r.params@) == query_view(self.params@).push(("page"@, decimal(page as nat))),
    {
        let mut s = self;
        push_query(&mut s.params, "page", u64_to_string(page as u64));
        s
    }
    pub fn with_search(self, search: &str) -> (r: Self)
        ensures
            query_view(r.params@) == query_view(self.params@).push(("search"@, search@)),
    {
        let mut s = self;
        push_query(&mut s.params, "search", owned(search));
        s
    }
}

/// Lists the audio isolation history.
#[derive(Clone, Debug)]
pub struct GetAudioIsolationHistory {
    pub query: Option<AudioIsolationHistoryQuery>,
}

impl Default for GetAudioIsolationHistory {
    fn default() -> (r: Self)
        ensures
            r.query is None,
    {
        GetAudioIsolationHistory { query: None }
    }
}

impl GetAudioIsolationHistory {
    pub fn with_query(self, query: AudioIsolationHistoryQuery) -> (r: Self)
        ensures
            r.query == Some(query),
            r == (Self { query: r.query, ..self }),
    {
        Self { query: Some(query), ..self }
    }
}

impl ElevenLabsEndpoint for GetAudioIsolationHistory {
    fn path(&self) -> (p: &'static str)
        ensures
            p@ == "/v1/audio-isolation/history"@,
    {
        "/v1/audio-isolation/history"
    }

    fn method(&self) -> (m: HttpMethod)
        ensures
            m == HttpMethod::Get,
    {
        HttpMethod::Get
    }

    fn query_params(&self) -> (r: Option<QueryValues>)
        ensures
            opt_query_view(r) == match self.query {
                Some(q) => Some(query_view(q.params@)),
                None => None::<Seq<(Seq<char>, Seq<char>)>>,
            },
    {
        match &self.query {
            Some(q) => Some(clone_query(&q.params)),
            None => None,
        }
    }

    fn path_params(&self) -> (r: Vec<(&'static str, String)>)
        ensures
            r@.len() == 0,
    {
        Vec::new()
    }
}

/// Deletes an item of the audio isolation history.
#[derive(Clone, Debug)]
pub struct DeleteAudioIsolationHistoryItem {
    pub history_item_id: String,
}

impl DeleteAudioIsolationHistoryItem {
    pub fn new(history_item_id: &str) -> (r: Self)
        ensures
            r.history_item_id@ == history_item_id@,
    {
        DeleteAudioIsolationHistoryItem { history_item_id: owned(history_item_id) }
    }
}

impl ElevenLabsEndpoint for DeleteAudioIsolationHistoryItem {
    fn path(&self) -> (p: &'static str)
        ensures
            p@ == "/v1/audio-isolation/history/:history_item_id"@,
    {
        "/v1/audio-isolation/history/:history_item_id"
    }

    fn method(&self) -> (m: HttpMethod)
        ensures
            m == HttpMethod::Delete,
    {
        HttpMethod::Delete
    }

    fn query_params(&self) -> (r: Option<QueryValues>)
        ensures
            r is None,
    {
        None
    }

    fn path_params(&self) -> (r: Vec<(&'static str, String)>)
        ensures
            r@.len() == 1,
            r@[0].0@ == ":history_item_id"@ && r@[0].1@ == self.history_item_id@,
    {
        let mut v: Vec<(&'static str, String)> = Vec::new();
        v.push((":history_item_id", self.history_item_id.clone()));
        v
    }
}

} // verus!
