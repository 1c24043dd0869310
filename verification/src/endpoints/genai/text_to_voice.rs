//! Voice design: previews of voices generated from a description, and
//! saving a preview as a voice.
use vstd::prelude::*;

use crate::endpoints::ElevenLabsEndpoint;
use crate::error::Error;
use crate::shared::{format_name, 
    clone_query, opt_query_view, push_query, query_view, HttpMethod, OutputFormat, QueryValues,
};
use crate::bytes::{base64_decode, base64_decoding};
use crate::text::owned;
use std::collections::HashMap;

verus! {

broadcast use vstd::string::group_string_axioms;

/// The description of the voice to design and the text it reads.
#[derive(Clone, Debug)]
pub struct TextToVoiceBody {
    pub text: Option<String>,
    pub voice_description: String,
    pub auto_generate_text: bool,
}

impl TextToVoiceBody {
    pub fn new(voice_description: &str) -> (r: Self)
        ensures
            r.text is None,
            r.voice_description@ == voice_description@,
            !r.auto_generate_text,
    {
        TextToVoiceBody { text: None, voice_description: owned(voice_description), auto_generate_text: false }
    }

    /// Lets the service write the text.
    pub fn with_auto_generated_text(self) -> (r: Self)
        ensures
            r.auto_generate_text,
            r == (Self { auto_generate_text: true, ..self }),
    {
        Self { auto_generate_text: true, ..self }
    }

    pub fn with_text(self, text: &str) -> (r: Self)
        ensures
            r.text matches Some(s) && s@ == text@,
            r == (Self { text: r.text, ..self }),
    {
        Self { text: Some(owned(text)), ..self }
    }
}

/// Query parameters of the voice design endpoint.
#[derive(Clone, Debug)]
pub struct TextToVoiceQuery {
    pub params: QueryValues,
}

impl Default for TextToVoiceQuery {
    fn default() -> (r: Self)
        ensures
            r.params@.len() == 0,
    {
        TextToVoiceQuery { params: Vec::new() }
    }
}

impl TextToVoiceQuery {
    pub fn with_output_format(self, output_format: OutputFormat) -> (r: Self)
        ensures
            query_view(r.params@) == query_view(self.params@).push(("output_format"@, format_name(output_format))),
    {
        let mut s = self;
        push_query(&mut s.params, "output_format", output_format.to_string());
        s
    }
}

/// Generates voice previews from a description.
#[derive(Clone, Debug)]
pub struct TextToVoice {
    pub body: TextToVoiceBody,
    pub query: Option<TextToVoiceQuery>,
}

impl TextToVoice {
    pub fn new(body: TextToVoiceBody) -> (r: Self)
        ensures
            r.body == body,
            r.query is None,
    {
        TextToVoice { body, query: None }
    }

    pub fn with_query(self, query: TextToVoiceQuery) -> (r: Self)
        ensures
            r.query == Some(query),
            r == (Self { query: r.query, ..self }),
    {
        Self { query: Some(query), ..self }
    }
}

impl ElevenLabsEndpoint for TextToVoice {
    fn path(&self) -> (p: &'static str)
        ensures
            p@ == "/v1/text-to-voice/create-previews"@,
    {
        "/v1/text-to-voice/create-previews"
    }

    fn method(&self) -> (m: HttpMethod)
        ensures
            m == HttpMethod::Post,
    {
        HttpMethod::Post
    }

    fn query_params(&self) -> (r: Option<QueryValues>)
        ensures
            opt_query_view(r) == match self.query {
                Some(q) => Some(query_view(q.params@)),
                None => None::<Seq<(Seq<char>, Seq<char>)>>,
            },
    {
        match &self.query {
            Some(q) => Some(clone_query(&q.params)),
            None => None,
        }
    }

    fn path_params(&self) -> (r: Vec<(&'static str, String)>)
        ensures
            r@.len() == 0,
    {
        Vec::new()
    }
}

/// The decoded audio of a voice preview, or `None` when it does not decode.
pub fn decode_preview_audio(audio_base_64: &str) -> (r: Result<Vec<u8>, Error>)
    ensures
        match base64_decoding(audio_base_64@) {
            Some(b) => r matches Ok(v) && v@ == b,
            None => r matches Err(Error::Base64DecodeError),
        },
{
    match base64_decode(audio_base_64) {
        Some(v) => Ok(v),
        None => Err(Error::Base64DecodeError),
    }
}

/// A generated voice to save.
#[derive(Clone, Debug)]
pub struct SaveVoiceFromPreviewBody {
    pub voice_name: String,
    pub voice_description: String,
    pub generated_voice_id: String,
    pub labels: HashMap<String, String>,
    pub played_not_selected_voice_ids: Option<Vec<String>>,
}

impl SaveVoiceFromPreviewBody {
    pub fn new(name: &str, voice_description: &str, generated_voice_id: &str) -> (r: Self)
        ensures
            r.voice_name@ == name@,
            r.voice_description@ == voice_description@,
            r.generated_voice_id@ == generated_voice_id@,
            r.labels@.len() == 0,
            r.played_not_selected_voice_ids is None,
    {
        SaveVoiceFromPreviewBody {
            voice_name: owned(name),
            voice_description: owned(voice_description),
            generated_voice_id: owned(generated_voice_id),
            labels: HashMap::new(),
            played_not_selected_voice_ids: None,
        }
    }

    /// Replaces the labels.
    pub fn with_labels(&mut self, labels: HashMap<String, String>)
        ensures
            final(self).labels == labels,
            final(self).voice_name == old(self).voice_name,
            final(self).voice_description == old(self).voice_description,
            final(self).generated_voice_id == old(self).generated_voice_id,
            final(self).played_not_selected_voice_ids == old(self).played_not_selected_voice_ids,
    {
        self.labels = labels;
    }
}

/// The saved voice, with the fields whose types this crate defines: the
/// samples, category, fine-tuning state, settings and sharing details are
/// left to the caller's reading of the answer.
#[derive(Clone, Debug)]
pub struct SaveVoiceFromPreviewResponse {
    pub voice_id: String,
    pub name: Option<String>,
    pub labels: Option<HashMap<String, String>>,
    pub description: Option<String>,
    pub preview_url: Option<String>,
    pub available_for_tiers: Option<Vec<String>>,
    pub high_quality_base_model_ids: Option<Vec<String>>,
}

/// Saves a generated voice preview as a voice.
#[derive(Clone, Debug)]
pub struct SaveVoiceFromPreview {
    pub body: SaveVoiceFromPreviewBody,
}

impl SaveVoiceFromPreview {
    pub fn new(body: SaveVoiceFromPreviewBody) -> (r: Self)
        ensures
            r.body == body,
    {
        SaveVoiceFromPreview { body }
    }
}

impl ElevenLabsEndpoint for SaveVoiceFromPreview {
    fn path(&self) -> (p: &'static str)
        ensures
            p@ == "/v1/text-to-voice"@,
    {
        "/v1/text-to-voice"
    }

    fn method(&self) -> (m: HttpMethod)
        ensures
            m == HttpMethod::Post,
    {
        HttpMethod::Post
    }

    fn query_params(&self) -> (r: Option<QueryValues>)
        ensures
            r is None,
    {
        None
    }

    fn path_params(&self) -> (r: Vec<(&'static str, String)>)
        ensures
            r@.len() == 0,
    {
        Vec::new()
    }
}

} // verus!
