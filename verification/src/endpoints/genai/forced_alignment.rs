//! The forced alignment endpoint: align a transcript with its audio.
use vstd::prelude::*;

use crate::endpoints::ElevenLabsEndpoint;
use crate::error::Error;
use crate::shared::{
    file_view, is_file_part, is_text_part, text_part, FilePart, FormPart, HttpMethod, QueryValues,
};
use crate::endpoints::genai::speech_to_text::{file_type_spec, TranscriptFileType};
use crate::shared::{extension_of, file_mime, file_name_of};
use crate::text::{owned, lowercase};

verus! {

broadcast use vstd::string::group_string_axioms;

/// The audio to align and its transcript.
#[derive(Clone, Debug)]
pub struct CreateForcedAlignmentBody {
    pub file: FilePart,
    pub text: String,
}

/// The MIME type to send with the file: `None` when it carries its own;
/// otherwise from the transcript file-type table.
pub open spec fn alignment_mime(f: FilePart) -> Result<Option<Seq<char>>, Error> {
    match file_mime(f) {
        Some(_) => Ok(None),
        None => match extension_of(file_name_of(f)) {
            None => Err(Error::FileExtensionNotFound),
            Some(e) => match file_type_spec(lowercase(e), false) {
                Some((video, s)) => Ok(Some((if video { "video/"@ } else { "audio/"@ }) + s)),
                None => Err(Error::FileExtensionNotSupported),
            },
        },
    }
}

impl CreateForcedAlignmentBody {
    pub fn new(file: FilePart, text: &str) -> (r: Self)
        ensures
            r.file == file,
            r.text@ == text@,
    {
        CreateForcedAlignmentBody { file, text: owned(text) }
    }

    pub fn from_bytes(file_name: &str, mime: &str, bytes: Vec<u8>, text: &str) -> (r: Self)
        ensures
            file_view(r.file) == (file_name@, Some((mime@, bytes@))),
            r.text@ == text@,
    {
        Self::new(FilePart::bytes(file_name, mime, bytes), text)
    }

    /// The multipart form: the file, then the text.
    pub fn form_parts(&self) -> (r: Result<Vec<FormPart>, Error>)
        ensures
            match alignment_mime(self.file) {
                Err(e) => r == Err::<Vec<FormPart>, Error>(e),
                Ok(m) => r matches Ok(v) && v@.len() == 2 && is_file_part(v@[0], "file"@, self.file, m)
                    && is_text_part(v@[1], "text"@, self.text@),
            },
    {
        let mime = if self.file.mime().is_some() {
            None
        } else {
            let ext = match self.file.extension() {
                Ok(e) => e,
                Err(e) => return Err(e),
            };
            match TranscriptFileType::from_extension(ext.as_str(), false) {
                Ok(t) => Some(t.mime_type()),
                Err(e) => return Err(e),
            }
        };
        let mut v: Vec<FormPart> = Vec::new();
        v.push(FormPart::File { name: "file", file: self.file.copy(), mime });
        v.push(text_part("text", self.text.clone()));
        Ok(v)
    }
}

/// Aligns a transcript with its audio.
#[derive(Clone, Debug)]
pub struct CreateForcedAlignment {
    pub body: CreateForcedAlignmentBody,
}

impl CreateForcedAlignment {
    pub fn new(body: CreateForcedAlignmentBody) -> (r: Self)
        ensures
            r.body == body,
    {
        CreateForcedAlignment { body }
    }
}

impl ElevenLabsEndpoint for CreateForcedAlignment {
    fn path(&self) -> (p: &'static str)
        ensures
            p@ == "/v1/forced-alignment"@,
    {
        "/v1/forced-alignment"
    }

    fn method(&self) -> (m: HttpMethod)
        ensures
            m == HttpMethod::Post,
    {
        HttpMethod::Post
    }

    fn query_params(&self) -> (r: Option<QueryValues>)
        ensures
            r is None,
    {
        None
    }

    fn path_params(&self) -> (r: Vec<(&'static str, String)>)
        ensures
            r@.len() == 0,
    {
        Vec::new()
    }
}

} // verus!
