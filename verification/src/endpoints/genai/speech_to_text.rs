//! The speech-to-text endpoints: batch transcription, transcript retrieval
//! and the realtime transcription protocol.
use vstd::prelude::*;

use crate::bytes::{base64_encode, base64_encoding};
use crate::endpoints::ElevenLabsEndpoint;
use crate::error::Error;
use crate::json::{
    field_opt_string, field_string, field_value, get_opt_string, get_string, get_value, object_entries, parse_entries,
    rest_text, rest_without1, rest_without2, rest_without3,
};
use crate::endpoints::genai::dubbing::{bool_opt, clone_opt, opt_bool_view, opt_field, opt_u32_view, push_opt};
use crate::shared::{
    clone_query, inferred_mime_spec, is_file_part, is_text_part, mime_result_matches, opt_query_view,
    push_query, query_view, text_part, FilePart, FormPart, HttpMethod, QueryValues,
};
use crate::text::{
    bool_text, bool_to_string, concat2, decimal, opt_view, owned, str_eq, str_views, to_lowercase,
    u64_to_string, lowercase,
};
use crate::url::{params_view, request_url_spec, websocket_url, WS_BASE_URL};

verus! {

broadcast use vstd::string::group_string_axioms;

/// The kind and MIME subtype of a file to transcribe.
#[derive(Clone, Copy, Debug, PartialEq, Eq)]
pub enum TranscriptFileType {
    Audio(&'static str),
    Video(&'static str),
}

/// Whether a file type is a video, and its MIME subtype.
pub open spec fn file_type_view(t: TranscriptFileType) -> (bool, Seq<char>) {
    match t {
        TranscriptFileType::Audio(s) => (false, s@),
        TranscriptFileType::Video(s) => (true, s@),
    }
}

/// The file type of a lowercase extension: whether it is a video and its
/// MIME subtype. `webm` and `mp4` are video only when video is preferred.
pub open spec fn file_type_spec(e: Seq<char>, prefer_video: bool) -> Option<(bool, Seq<char>)> {
    if e == "aac"@ {
        Some((false, "aac"@))
    } else if e == "aif"@ || e == "aiff"@ {
        Some((false, "x-aiff"@))
    } else if e == "ogg"@ || e == "oga"@ || e == "spx"@ {
        Some((false, "ogg"@))
    } else if e == "mp3"@ || e == "m2a"@ || e == "m3a"@ || e == "mp2"@ || e == "mp2a"@ || e == "mpga"@ {
        Some((false, "mpeg"@))
    } else if e == "opus"@ {
        Some((false, "opus"@))
    } else if e == "wav"@ || e == "wave"@ {
        Some((false, "wav"@))
    } else if e == "flac"@ {
        Some((false, "flac"@))
    } else if e == "m4a"@ {
        Some((false, "x-m4a"@))
    } else if e == "webm"@ {
        Some((prefer_video, "webm"@))
    } else if e == "mp4"@ {
        Some((prefer_video, "mp4"@))
    } else if e == "avi"@ {
        Some((true, "x-msvideo"@))
    } else if e == "mkv"@ {
        Some((true, "x-matroska"@))
    } else if e == "mov"@ || e == "qt"@ {
        Some((true, "quicktime"@))
    } else if e == "wmv"@ {
        Some((true, "x-ms-wmv"@))
    } else if e == "flv"@ {
        Some((true, "x-flv"@))
    } else if e == "mpg"@ || e == "mpeg"@ {
        Some((true, "mpeg"@))
    } else if e == "3gp"@ {
        Some((true, "3gpp"@))
    } else {
        None
    }
}

impl TranscriptFileType {
    /// The MIME type: `audio/` or `video/` and the subtype.
    pub fn mime_type(self) -> (m: String)
        ensures
            m@ == (if file_type_view(self).0 {
                "video/"@
            } else {
                "audio/"@
            }) + file_type_view(self).1,
    {
        match self {
            TranscriptFileType::Audio(s) => concat2("audio/", s),
            TranscriptFileType::Video(s) => concat2("video/", s),
        }
    }

    /// The file type of an extension that is already lowercase.
    pub fn from_lowercase_extension(e: &str, prefer_video: bool) -> (r: Result<Self, Error>)
        ensures
            match file_type_spec(e@, prefer_video) {
                Some(v) => r matches Ok(t) && file_type_view(t) == v,
                None => r matches Err(Error::FileExtensionNotSupported),
            },
    {
        if str_eq(e, "aac") {
            Ok(TranscriptFileType::Audio("aac"))
        } else if str_eq(e, "aif") || str_eq(e, "aiff") {
            Ok(TranscriptFileType::Audio("x-aiff"))
        } else if str_eq(e, "ogg") || str_eq(e, "oga") || str_eq(e, "spx") {
            Ok(TranscriptFileType::Audio("ogg"))
        } else if str_eq(e, "mp3") || str_eq(e, "m2a") || str_eq(e, "m3a") || str_eq(e, "mp2") || str_eq(e, "mp2a") || str_eq(e, "mpga") {
            Ok(TranscriptFileType::Audio("mpeg"))
        } else if str_eq(e, "opus") {
            Ok(TranscriptFileType::Audio("opus"))
        } else if str_eq(e, "wav") || str_eq(e, "wave") {
            Ok(TranscriptFileType::Audio("wav"))
        } else if str_eq(e, "flac") {
            Ok(TranscriptFileType::Audio("flac"))
        } else if str_eq(e, "m4a") {
            Ok(TranscriptFileType::Audio("x-m4a"))
        } else if str_eq(e, "webm") {
            if prefer_video { Ok(TranscriptFileType::Video("webm")) } else { Ok(TranscriptFileType::Audio("webm")) }
        } else if str_eq(e, "mp4") {
            if prefer_video { Ok(TranscriptFileType::Video("mp4")) } else { Ok(TranscriptFileType::Audio("mp4")) }
        } else if str_eq(e, "avi") {
            Ok(TranscriptFileType::Video("x-msvideo"))
        } else if str_eq(e, "mkv") {
            Ok(TranscriptFileType::Video("x-matroska"))
        } else if str_eq(e, "mov") || str_eq(e, "qt") {
            Ok(TranscriptFileType::Video("quicktime"))
        } else if str_eq(e, "wmv") {
            Ok(TranscriptFileType::Video("x-ms-wmv"))
        } else if str_eq(e, "flv") {
            Ok(TranscriptFileType::Video("x-flv"))
        } else if str_eq(e, "mpg") || str_eq(e, "mpeg") {
            Ok(TranscriptFileType::Video("mpeg"))
        } else if str_eq(e, "3gp") {
            Ok(TranscriptFileType::Video("3gpp"))
        } else {
            Err(Error::FileExtensionNotSupported)
        }
    }

    /// The file type of a file extension, compared case-insensitively.
    pub fn from_extension(ext: &str, prefer_video: bool) -> (r: Result<Self, Error>)
        ensures
            match file_type_spec(lowercase(ext@), prefer_video) {
                Some(v) => r matches Ok(t) && file_type_view(t) == v,
                None => r matches Err(Error::FileExtensionNotSupported),
            },
    {
        let lower = to_lowercase(ext);
        Self::from_lowercase_extension(lower.as_str(), prefer_video)
    }
}

/// The extensions a transcription file may have, each with whether it is a
/// video and its MIME subtype; `webm` and `mp4` are video exactly when video
/// is preferred.
pub proof fn lemma_transcript_extension_table(prefer_video: bool)
    ensures
        file_type_spec("aac"@, prefer_video) == Some((false, "aac"@)),
        file_type_spec("aif"@, prefer_video) == Some((false, "x-aiff"@)),
        file_type_spec("aiff"@, prefer_video) == Some((false, "x-aiff"@)),
        file_type_spec("ogg"@, prefer_video) == Some((false, "ogg"@)),
        file_type_spec("oga"@, prefer_video) == Some((false, "ogg"@)),
        file_type_spec("spx"@, prefer_video) == Some((false, "ogg"@)),
        file_type_spec("mp3"@, prefer_video) == Some((false, "mpeg"@)),
        file_type_spec("m2a"@, prefer_video) == Some((false, "mpeg"@)),
        file_type_spec("m3a"@, prefer_video) == Some((false, "mpeg"@)),
        file_type_spec("mp2"@, prefer_video) == Some((false, "mpeg"@)),
        file_type_spec("mp2a"@, prefer_video) == Some((false, "mpeg"@)),
        file_type_spec("mpga"@, prefer_video) == Some((false, "mpeg"@)),
        file_type_spec("opus"@, prefer_video) == Some((false, "opus"@)),
        file_type_spec("wav"@, prefer_video) == Some((false, "wav"@)),
        file_type_spec("wave"@, prefer_video) == Some((false, "wav"@)),
        file_type_spec("flac"@, prefer_video) == Some((false, "flac"@)),
        file_type_spec("m4a"@, prefer_video) == Some((false, "x-m4a"@)),
        file_type_spec("webm"@, prefer_video) == Some((prefer_video, "webm"@)),
        file_type_spec("mp4"@, prefer_video) == Some((prefer_video, "mp4"@)),
        file_type_spec("avi"@, prefer_video) == Some((true, "x-msvideo"@)),
        file_type_spec("mkv"@, prefer_video) == Some((true, "x-matroska"@)),
        file_type_spec("mov"@, prefer_video) == Some((true, "quicktime"@)),
        file_type_spec("qt"@, prefer_video) == Some((true, "quicktime"@)),
        file_type_spec("wmv"@, prefer_video) == Some((true, "x-ms-wmv"@)),
        file_type_spec("flv"@, prefer_video) == Some((true, "x-flv"@)),
        file_type_spec("mpg"@, prefer_video) == Some((true, "mpeg"@)),
        file_type_spec("mpeg"@, prefer_video) == Some((true, "mpeg"@)),
        file_type_spec("3gp"@, prefer_video) == Some((true, "3gpp"@)),
{
    reveal_strlit("aac");
    reveal_strlit("aif");
    reveal_strlit("aiff");
    reveal_strlit("ogg");
    reveal_strlit("oga");
    reveal_strlit("spx");
    reveal_strlit("mp3");
    reveal_strlit("m2a");
    reveal_strlit("m3a");
    reveal_strlit("mp2");
    reveal_strlit("mp2a");
    reveal_strlit("mpga");
    reveal_strlit("opus");
    reveal_strlit("wav");
    reveal_strlit("wave");
    reveal_strlit("flac");
    reveal_strlit("m4a");
    reveal_strlit("webm");
    reveal_strlit("mp4");
    reveal_strlit("avi");
    reveal_strlit("mkv");
    reveal_strlit("mov");
    reveal_strlit("qt");
    reveal_strlit("wmv");
    reveal_strlit("flv");
    reveal_strlit("mpg");
    reveal_strlit("mpeg");
    reveal_strlit("3gp");
    assert(file_type_spec("aac"@, prefer_video) == Some((false, "aac"@))) by {
        assert("aac"@.len() == 3);
    }
    assert(file_type_spec("aif"@, prefer_video) == Some((false, "x-aiff"@))) by {
        assert("aif"@.len() == 3);
        assert("aif"@[1] != "aac"@[1]);
    }
    assert(file_type_spec("aiff"@, prefer_video) == Some((false, "x-aiff"@))) by {
        assert("aiff"@.len() == 4);
        assert("aac"@.len() == 3);
        assert("aif"@.len() == 3);
    }
    assert(file_type_spec("ogg"@, prefer_video) == Some((false, "ogg"@))) by {
        assert("ogg"@.len() == 3);
        assert("aiff"@.len() == 4);
        assert("ogg"@[0] != "aac"@[0]);
        assert("ogg"@[0] != "aif"@[0]);
    }
    assert(file_type_spec("oga"@, prefer_video) == Some((false, "ogg"@))) by {
        assert("oga"@.len() == 3);
        assert("aiff"@.len() == 4);
        assert("oga"@[0] != "aac"@[0]);
        assert("oga"@[0] != "aif"@[0]);
        assert("oga"@[2] != "ogg"@[2]);
    }
    assert(file_type_spec("spx"@, prefer_video) == Some((false, "ogg"@))) by {
        assert("spx"@.len() == 3);
        assert("aiff"@.len() == 4);
        assert("spx"@[0] != "aac"@[0]);
        assert("spx"@[0] != "aif"@[0]);
        assert("spx"@[0] != "ogg"@[0]);
        assert("spx"@[0] != "oga"@[0]);
    }
    assert(file_type_spec("mp3"@, prefer_video) == Some((false, "mpeg"@))) by {
        assert("mp3"@.len() == 3);
        assert("aiff"@.len() == 4);
        assert("mp3"@[0] != "aac"@[0]);
        assert("mp3"@[0] != "aif"@[0]);
        assert("mp3"@[0] != "ogg"@[0]);
        assert("mp3"@[0] != "oga"@[0]);
        assert("mp3"@[0] != "spx"@[0]);
    }
    assert(file_type_spec("m2a"@, prefer_video) == Some((false, "mpeg"@))) by {
        assert("m2a"@.len() == 3);
        assert("aiff"@.len() == 4);
        assert("m2a"@[0] != "aac"@[0]);
        assert("m2a"@[0] != "aif"@[0]);
        assert("m2a"@[0] != "ogg"@[0]);
        assert("m2a"@[0] != "oga"@[0]);
        assert("m2a"@[0] != "spx"@[0]);
        assert("m2a"@[1] != "mp3"@[1]);
    }
    assert(file_type_spec("m3a"@, prefer_video) == Some((false, "mpeg"@))) by {
        assert("m3a"@.len() == 3);
        assert("aiff"@.len() == 4);
        assert("m3a"@[0] != "aac"@[0]);
        assert("m3a"@[0] != "aif"@[0]);
        assert("m3a"@[0] != "ogg"@[0]);
        assert("m3a"@[0] != "oga"@[0]);
        assert("m3a"@[0] != "spx"@[0]);
        assert("m3a"@[1] != "mp3"@[1]);
        assert("m3a"@[1] != "m2a"@[1]);
    }
    assert(file_type_spec("mp2"@, prefer_video) == Some((false, "mpeg"@))) by {
        assert("mp2"@.len() == 3);
        assert("aiff"@.len() == 4);
        assert("mp2"@[0] != "aac"@[0]);
        assert("mp2"@[0] != "aif"@[0]);
        assert("mp2"@[0] != "ogg"@[0]);
        assert("mp2"@[0] != "oga"@[0]);
        assert("mp2"@[0] != "spx"@[0]);
        assert("mp2"@[2] != "mp3"@[2]);
        assert("mp2"@[1] != "m2a"@[1]);
        assert("mp2"@[1] != "m3a"@[1]);
    }
    assert(file_type_spec("mp2a"@, prefer_video) == Some((false, "mpeg"@))) by {
        assert("mp2a"@.len() == 4);
        assert("aac"@.len() == 3);
        assert("aif"@.len() == 3);
        assert("ogg"@.len() == 3);
        assert("oga"@.len() == 3);
        assert("spx"@.len() == 3);
        assert("mp3"@.len() == 3);
        assert("m2a"@.len() == 3);
        assert("m3a"@.len() == 3);
        assert("mp2"@.len() == 3);
        assert("mp2a"@[0] != "aiff"@[0]);
    }
    assert(file_type_spec("mpga"@, prefer_video) == Some((false, "mpeg"@))) by {
        assert("mpga"@.len() == 4);
        assert("aac"@.len() == 3);
        assert("aif"@.len() == 3);
        assert("ogg"@.len() == 3);
        assert("oga"@.len() == 3);
        assert("spx"@.len() == 3);
        assert("mp3"@.len() == 3);
        assert("m2a"@.len() == 3);
        assert("m3a"@.len() == 3);
        assert("mp2"@.len() == 3);
        assert("mpga"@[0] != "aiff"@[0]);
        assert("mpga"@[2] != "mp2a"@[2]);
    }
    assert(file_type_spec("opus"@, prefer_video) == Some((false, "opus"@))) by {
        assert("opus"@.len() == 4);
        assert("aac"@.len() == 3);
        assert("aif"@.len() == 3);
        assert("ogg"@.len() == 3);
        assert("oga"@.len() == 3);
        assert("spx"@.len() == 3);
        assert("mp3"@.len() == 3);
        assert("m2a"@.len() == 3);
        assert("m3a"@.len() == 3);
        assert("mp2"@.len() == 3);
        assert("opus"@[0] != "aiff"@[0]);
        assert("opus"@[0] != "mp2a"@[0]);
        assert("opus"@[0] != "mpga"@[0]);
    }
    assert(file_type_spec("wav"@, prefer_video) == Some((false, "wav"@))) by {
        assert("wav"@.len() == 3);
        assert("aiff"@.len() == 4);
        assert("mp2a"@.len() == 4);
        assert("mpga"@.len() == 4);
        assert("opus"@.len() == 4);
        assert("wav"@[0] != "aac"@[0]);
        assert("wav"@[0] != "aif"@[0]);
        assert("wav"@[0] != "ogg"@[0]);
        assert("wav"@[0] != "oga"@[0]);
        assert("wav"@[0] != "spx"@[0]);
        assert("wav"@[0] != "mp3"@[0]);
        assert("wav"@[0] != "m2a"@[0]);
        assert("wav"@[0] != "m3a"@[0]);
        assert("wav"@[0] != "mp2"@[0]);
    }
    assert(file_type_spec("wave"@, prefer_video) == Some((false, "wav"@))) by {
        assert("wave"@.len() == 4);
        assert("aac"@.len() == 3);
        assert("aif"@.len() == 3);
        assert("ogg"@.len() == 3);
        assert("oga"@.len() == 3);
        assert("spx"@.len() == 3);
        assert("mp3"@.len() == 3);
        assert("m2a"@.len() == 3);
        assert("m3a"@.len() == 3);
        assert("mp2"@.len() == 3);
        assert("wav"@.len() == 3);
        assert("wave"@[0] != "aiff"@[0]);
        assert("wave"@[0] != "mp2a"@[0]);
        assert("wave"@[0] != "mpga"@[0]);
        assert("wave"@[0] != "opus"@[0]);
    }
    assert(file_type_spec("flac"@, prefer_video) == Some((false, "flac"@))) by {
        assert("flac"@.len() == 4);
        assert("aac"@.len() == 3);
        assert("aif"@.len() == 3);
        assert("ogg"@.len() == 3);
        assert("oga"@.len() == 3);
        assert("spx"@.len() == 3);
        assert("mp3"@.len() == 3);
        assert("m2a"@.len() == 3);
        assert("m3a"@.len() == 3);
        assert("mp2"@.len() == 3);
        assert("wav"@.len() == 3);
        assert("flac"@[0] != "aiff"@[0]);
        assert("flac"@[0] != "mp2a"@[0]);
        assert("flac"@[0] != "mpga"@[0]);
        assert("flac"@[0] != "opus"@[0]);
        assert("flac"@[0] != "wave"@[0]);
    }
    assert(file_type_spec("m4a"@, prefer_video) == Some((false, "x-m4a"@))) by {
        assert("m4a"@.len() == 3);
        assert("aiff"@.len() == 4);
        assert("mp2a"@.len() == 4);
        assert("mpga"@.len() == 4);
        assert("opus"@.len() == 4);
        assert("wave"@.len() == 4);
        assert("flac"@.len() == 4);
        assert("m4a"@[0] != "aac"@[0]);
        assert("m4a"@[0] != "aif"@[0]);
        assert("m4a"@[0] != "ogg"@[0]);
        assert("m4a"@[0] != "oga"@[0]);
        assert("m4a"@[0] != "spx"@[0]);
        assert("m4a"@[1] != "mp3"@[1]);
        assert("m4a"@[1] != "m2a"@[1]);
        assert("m4a"@[1] != "m3a"@[1]);
        assert("m4a"@[1] != "mp2"@[1]);
        assert("m4a"@[0] != "wav"@[0]);
    }
    assert(file_type_spec("webm"@, prefer_video) == Some((prefer_video, "webm"@))) by {
        assert("webm"@.len() == 4);
        assert("aac"@.len() == 3);
        assert("aif"@.len() == 3);
        assert("ogg"@.len() == 3);
        assert("oga"@.len() == 3);
        assert("spx"@.len() == 3);
        assert("mp3"@.len() == 3);
        assert("m2a"@.len() == 3);
        assert("m3a"@.len() == 3);
        assert("mp2"@.len() == 3);
        assert("wav"@.len() == 3);
        assert("m4a"@.len() == 3);
        assert("webm"@[0] != "aiff"@[0]);
        assert("webm"@[0] != "mp2a"@[0]);
        assert("webm"@[0] != "mpga"@[0]);
        assert("webm"@[0] != "opus"@[0]);
        assert("webm"@[1] != "wave"@[1]);
        assert("webm"@[0] != "flac"@[0]);
    }
    assert(file_type_spec("mp4"@, prefer_video) == Some((prefer_video, "mp4"@))) by {
        assert("mp4"@.len() == 3);
        assert("aiff"@.len() == 4);
        assert("mp2a"@.len() == 4);
        assert("mpga"@.len() == 4);
        assert("opus"@.len() == 4);
        assert("wave"@.len() == 4);
        assert("flac"@.len() == 4);
        assert("webm"@.len() == 4);
        assert("mp4"@[0] != "aac"@[0]);
        assert("mp4"@[0] != "aif"@[0]);
        assert("mp4"@[0] != "ogg"@[0]);
        assert("mp4"@[0] != "oga"@[0]);
        assert("mp4"@[0] != "spx"@[0]);
        assert("mp4"@[2] != "mp3"@[2]);
        assert("mp4"@[1] != "m2a"@[1]);
        assert("mp4"@[1] != "m3a"@[1]);
        assert("mp4"@[2] != "mp2"@[2]);
        assert("mp4"@[0] != "wav"@[0]);
        assert("mp4"@[1] != "m4a"@[1]);
    }
    assert(file_type_spec("avi"@, prefer_video) == Some((true, "x-msvideo"@))) by {
        assert("avi"@.len() == 3);
        assert("aiff"@.len() == 4);
        assert("mp2a"@.len() == 4);
        assert("mpga"@.len() == 4);
        assert("opus"@.len() == 4);
        assert("wave"@.len() == 4);
        assert("flac"@.len() == 4);
        assert("webm"@.len() == 4);
        assert("avi"@[1] != "aac"@[1]);
        assert("avi"@[1] != "aif"@[1]);
        assert("avi"@[0] != "ogg"@[0]);
        assert("avi"@[0] != "oga"@[0]);
        assert("avi"@[0] != "spx"@[0]);
        assert("avi"@[0] != "mp3"@[0]);
        assert("avi"@[0] != "m2a"@[0]);
        assert("avi"@[0] != "m3a"@[0]);
        assert("avi"@[0] != "mp2"@[0]);
        assert("avi"@[0] != "wav"@[0]);
        assert("avi"@[0] != "m4a"@[0]);
        assert("avi"@[0] != "mp4"@[0]);
    }
    assert(file_type_spec("mkv"@, prefer_video) == Some((true, "x-matroska"@))) by {
        assert("mkv"@.len() == 3);
        assert("aiff"@.len() == 4);
        assert("mp2a"@.len() == 4);
        assert("mpga"@.len() == 4);
        assert("opus"@.len() == 4);
        assert("wave"@.len() == 4);
        assert("flac"@.len() == 4);
        assert("webm"@.len() == 4);
        assert("mkv"@[0] != "aac"@[0]);
        assert("mkv"@[0] != "aif"@[0]);
        assert("mkv"@[0] != "ogg"@[0]);
        assert("mkv"@[0] != "oga"@[0]);
        assert("mkv"@[0] != "spx"@[0]);
        assert("mkv"@[1] != "mp3"@[1]);
        assert("mkv"@[1] != "m2a"@[1]);
        assert("mkv"@[1] != "m3a"@[1]);
        assert("mkv"@[1] != "mp2"@[1]);
        assert("mkv"@[0] != "wav"@[0]);
        assert("mkv"@[1] != "m4a"@[1]);
        assert("mkv"@[1] != "mp4"@[1]);
        assert("mkv"@[0] != "avi"@[0]);
    }
    assert(file_type_spec("mov"@, prefer_video) == Some((true, "quicktime"@))) by {
        assert("mov"@.len() == 3);
        assert("aiff"@.len() == 4);
        assert("mp2a"@.len() == 4);
        assert("mpga"@.len() == 4);
        assert("opus"@.len() == 4);
        assert("wave"@.len() == 4);
        assert("flac"@.len() == 4);
        assert("webm"@.len() == 4);
        assert("mov"@[0] != "aac"@[0]);
        assert("mov"@[0] != "aif"@[0]);
        assert("mov"@[0] != "ogg"@[0]);
        assert("mov"@[0] != "oga"@[0]);
        assert("mov"@[0] != "spx"@[0]);
        assert("mov"@[1] != "mp3"@[1]);
        assert("mov"@[1] != "m2a"@[1]);
        assert("mov"@[1] != "m3a"@[1]);
        assert("mov"@[1] != "mp2"@[1]);
        assert("mov"@[0] != "wav"@[0]);
        assert("mov"@[1] != "m4a"@[1]);
        assert("mov"@[1] != "mp4"@[1]);
        assert("mov"@[0] != "avi"@[0]);
        assert("mov"@[1] != "mkv"@[1]);
    }
    assert(file_type_spec("qt"@, prefer_video) == Some((true, "quicktime"@))) by {
        assert("qt"@.len() == 2);
        assert("aac"@.len() == 3);
        assert("aif"@.len() == 3);
        assert("aiff"@.len() == 4);
        assert("ogg"@.len() == 3);
        assert("oga"@.len() == 3);
        assert("spx"@.len() == 3);
        assert("mp3"@.len() == 3);
        assert("m2a"@.len() == 3);
        assert("m3a"@.len() == 3);
        assert("mp2"@.len() == 3);
        assert("mp2a"@.len() == 4);
        assert("mpga"@.len() == 4);
        assert("opus"@.len() == 4);
        assert("wav"@.len() == 3);
        assert("wave"@.len() == 4);
        assert("flac"@.len() == 4);
        assert("m4a"@.len() == 3);
        assert("webm"@.len() == 4);
        assert("mp4"@.len() == 3);
        assert("avi"@.len() == 3);
        assert("mkv"@.len() == 3);
        assert("mov"@.len() == 3);
    }
    assert(file_type_spec("wmv"@, prefer_video) == Some((true, "x-ms-wmv"@))) by {
        assert("wmv"@.len() == 3);
        assert("aiff"@.len() == 4);
        assert("mp2a"@.len() == 4);
        assert("mpga"@.len() == 4);
        assert("opus"@.len() == 4);
        assert("wave"@.len() == 4);
        assert("flac"@.len() == 4);
        assert("webm"@.len() == 4);
        assert("qt"@.len() == 2);
        assert("wmv"@[0] != "aac"@[0]);
        assert("wmv"@[0] != "aif"@[0]);
        assert("wmv"@[0] != "ogg"@[0]);
        assert("wmv"@[0] != "oga"@[0]);
        assert("wmv"@[0] != "spx"@[0]);
        assert("wmv"@[0] != "mp3"@[0]);
        assert("wmv"@[0] != "m2a"@[0]);
        assert("wmv"@[0] != "m3a"@[0]);
        assert("wmv"@[0] != "mp2"@[0]);
        assert("wmv"@[1] != "wav"@[1]);
        assert("wmv"@[0] != "m4a"@[0]);
        assert("wmv"@[0] != "mp4"@[0]);
        assert("wmv"@[0] != "avi"@[0]);
        assert("wmv"@[0] != "mkv"@[0]);
        assert("wmv"@[0] != "mov"@[0]);
    }
    assert(file_type_spec("flv"@, prefer_video) == Some((true, "x-flv"@))) by {
        assert("flv"@.len() == 3);
        assert("aiff"@.len() == 4);
        assert("mp2a"@.len() == 4);
        assert("mpga"@.len() == 4);
        assert("opus"@.len() == 4);
        assert("wave"@.len() == 4);
        assert("flac"@.len() == 4);
        assert("webm"@.len() == 4);
        assert("qt"@.len() == 2);
        assert("flv"@[0] != "aac"@[0]);
        assert("flv"@[0] != "aif"@[0]);
        assert("flv"@[0] != "ogg"@[0]);
        assert("flv"@[0] != "oga"@[0]);
        assert("flv"@[0] != "spx"@[0]);
        assert("flv"@[0] != "mp3"@[0]);
        assert("flv"@[0] != "m2a"@[0]);
        assert("flv"@[0] != "m3a"@[0]);
        assert("flv"@[0] != "mp2"@[0]);
        assert("flv"@[0] != "wav"@[0]);
        assert("flv"@[0] != "m4a"@[0]);
        assert("flv"@[0] != "mp4"@[0]);
        assert("flv"@[0] != "avi"@[0]);
        assert("flv"@[0] != "mkv"@[0]);
        assert("flv"@[0] != "mov"@[0]);
        assert("flv"@[0] != "wmv"@[0]);
    }
    assert(file_type_spec("mpg"@, prefer_video) == Some((true, "mpeg"@))) by {
        assert("mpg"@.len() == 3);
        assert("aiff"@.len() == 4);
        assert("mp2a"@.len() == 4);
        assert("mpga"@.len() == 4);
        assert("opus"@.len() == 4);
        assert("wave"@.len() == 4);
        assert("flac"@.len() == 4);
        assert("webm"@.len() == 4);
        assert("qt"@.len() == 2);
        assert("mpg"@[0] != "aac"@[0]);
        assert("mpg"@[0] != "aif"@[0]);
        assert("mpg"@[0] != "ogg"@[0]);
        assert("mpg"@[0] != "oga"@[0]);
        assert("mpg"@[0] != "spx"@[0]);
        assert("mpg"@[2] != "mp3"@[2]);
        assert("mpg"@[1] != "m2a"@[1]);
        assert("mpg"@[1] != "m3a"@[1]);
        assert("mpg"@[2] != "mp2"@[2]);
        assert("mpg"@[0] != "wav"@[0]);
        assert("mpg"@[1] != "m4a"@[1]);
        assert("mpg"@[2] != "mp4"@[2]);
        assert("mpg"@[0] != "avi"@[0]);
        assert("mpg"@[1] != "mkv"@[1]);
        assert("mpg"@[1] != "mov"@[1]);
        assert("mpg"@[0] != "wmv"@[0]);
        assert("mpg"@[0] != "flv"@[0]);
    }
    assert(file_type_spec("mpeg"@, prefer_video) == Some((true, "mpeg"@))) by {
        assert("mpeg"@.len() == 4);
        assert("aac"@.len() == 3);
        assert("aif"@.len() == 3);
        assert("ogg"@.len() == 3);
        assert("oga"@.len() == 3);
        assert("spx"@.len() == 3);
        assert("mp3"@.len() == 3);
        assert("m2a"@.len() == 3);
        assert("m3a"@.len() == 3);
        assert("mp2"@.len() == 3);
        assert("wav"@.len() == 3);
        assert("m4a"@.len() == 3);
        assert("mp4"@.len() == 3);
        assert("avi"@.len() == 3);
        assert("mkv"@.len() == 3);
        assert("mov"@.len() == 3);
        assert("qt"@.len() == 2);
        assert("wmv"@.len() == 3);
        assert("flv"@.len() == 3);
        assert("mpg"@.len() == 3);
        assert("mpeg"@[0] != "aiff"@[0]);
        assert("mpeg"@[2] != "mp2a"@[2]);
        assert("mpeg"@[2] != "mpga"@[2]);
        assert("mpeg"@[0] != "opus"@[0]);
        assert("mpeg"@[0] != "wave"@[0]);
        assert("mpeg"@[0] != "flac"@[0]);
        assert("mpeg"@[0] != "webm"@[0]);
    }
    assert(file_type_spec("3gp"@, prefer_video) == Some((true, "3gpp"@))) by {
        assert("3gp"@.len() == 3);
        assert("aiff"@.len() == 4);
        assert("mp2a"@.len() == 4);
        assert("mpga"@.len() == 4);
        assert("opus"@.len() == 4);
        assert("wave"@.len() == 4);
        assert("flac"@.len() == 4);
        assert("webm"@.len() == 4);
        assert("qt"@.len() == 2);
        assert("mpeg"@.len() == 4);
        assert("3gp"@[0] != "aac"@[0]);
        assert("3gp"@[0] != "aif"@[0]);
        assert("3gp"@[0] != "ogg"@[0]);
        assert("3gp"@[0] != "oga"@[0]);
        assert("3gp"@[0] != "spx"@[0]);
        assert("3gp"@[0] != "mp3"@[0]);
        assert("3gp"@[0] != "m2a"@[0]);
        assert("3gp"@[0] != "m3a"@[0]);
        assert("3gp"@[0] != "mp2"@[0]);
        assert("3gp"@[0] != "wav"@[0]);
        assert("3gp"@[0] != "m4a"@[0]);
        assert("3gp"@[0] != "mp4"@[0]);
        assert("3gp"@[0] != "avi"@[0]);
        assert("3gp"@[0] != "mkv"@[0]);
        assert("3gp"@[0] != "mov"@[0]);
        assert("3gp"@[0] != "wmv"@[0]);
        assert("3gp"@[0] != "flv"@[0]);
        assert("3gp"@[0] != "mpg"@[0]);
    }
}


/// The transcription models.
#[derive(Clone, Copy, Debug, PartialEq, Eq, Structural)]
pub enum SpeechToTextModel {
    ScribeV2,
    ScribeV1,
    ScribeV1Base,
}

pub open spec fn stt_model_name(v: SpeechToTextModel) -> Seq<char> {
    match v {
        SpeechToTextModel::ScribeV2 => "scribe_v2"@,
        SpeechToTextModel::ScribeV1 => "scribe_v1"@,
        SpeechToTextModel::ScribeV1Base => "scribe_v1_base"@,
    }
}

/// The model id of each speech-to-text model.
pub proof fn lemma_stt_model_name_table()
    ensures
        stt_model_name(SpeechToTextModel::ScribeV2) == "scribe_v2"@,
        stt_model_name(SpeechToTextModel::ScribeV1) == "scribe_v1"@,
        stt_model_name(SpeechToTextModel::ScribeV1Base) == "scribe_v1_base"@,
{
}

impl SpeechToTextModel {
    /// The wire name.
    pub fn as_str(self) -> (s: &'static str)
        ensures
            s@ == stt_model_name(self),
    {
        match self {
            SpeechToTextModel::ScribeV2 => "scribe_v2",
            SpeechToTextModel::ScribeV1 => "scribe_v1",
            SpeechToTextModel::ScribeV1Base => "scribe_v1_base",
        }
    }
}

/// Retrieves a transcript.
#[derive(Clone, Debug)]
pub struct GetTranscript {
    pub transcription_id: String,
}

impl GetTranscript {
    pub fn new(transcription_id: &str) -> (r: Self)
        ensures
            r.transcription_id@ == transcription_id@,
    {
        GetTranscript { transcription_id: owned(transcription_id) }
    }
}

impl ElevenLabsEndpoint for GetTranscript {
    fn path(&self) -> (p: &'static str)
        ensures
            p@ == "/v1/speech-to-text/transcripts/:transcription_id"@,
    {
        "/v1/speech-to-text/transcripts/:transcription_id"
    }

    fn method(&self) -> (m: HttpMethod)
        ensures
            m == HttpMethod::Get,
    {
        HttpMethod::Get
    }

    fn query_params(&self) -> (r: Option<QueryValues>)
        ensures
            r is None,
    {
        None
    }

    fn path_params(&self) -> (r: Vec<(&'static str, String)>)
        ensures
            r@.len() == 1,
            r@[0].0@ == ":transcription_id"@ && r@[0].1@ == self.transcription_id@,
    {
        let mut v: Vec<(&'static str, String)> = Vec::new();
        v.push((":transcription_id", self.transcription_id.clone()));
        v
    }
}

/// Deletes a transcript.
#[derive(Clone, Debug)]
pub struct DeleteTranscript {
    pub transcription_id: String,
}

impl DeleteTranscript {
    pub fn new(transcription_id: &str) -> (r: Self)
        ensures
            r.transcription_id@ == transcription_id@,
    {
        DeleteTranscript { transcription_id: owned(transcription_id) }
    }
}

impl ElevenLabsEndpoint for DeleteTranscript {
    fn path(&self) -> (p: &'static str)
        ensures
            p@ == "/v1/speech-to-text/transcripts/:transcription_id"@,
    {
        "/v1/speech-to-text/transcripts/:transcription_id"
    }

    fn method(&self) -> (m: HttpMethod)
        ensures
            m == HttpMethod::Delete,
    {
        HttpMethod::Delete
    }

    fn query_params(&self) -> (r: Option<QueryValues>)
        ensures
            r is None,
    {
        None
    }

    fn path_params(&self) -> (r: Vec<(&'static str, String)>)
        ensures
            r@.len() == 1,
            r@[0].0@ == ":transcription_id"@ && r@[0].1@ == self.transcription_id@,
    {
        let mut v: Vec<(&'static str, String)> = Vec::new();
        v.push((":transcription_id", self.transcription_id.clone()));
        v
    }
}

/// Query parameters for creating a transcript.
#[derive(Clone, Debug)]
pub struct CreateTranscriptQuery {
    pub params: QueryValues,
}

impl Default for CreateTranscriptQuery {
    fn default() -> (r: Self)
        ensures
            r.params@.len() == 0,
    {
        CreateTranscriptQuery { params: Vec::new() }
    }
}

impl CreateTranscriptQuery {
    /// When false, zero retention mode is used for the request.
    pub fn enable_logging(self, enable: bool) -> (r: Self)
        ensures
            query_view(r.params@) == query_view(self.params@).push(("enable_logging"@, bool_text(enable))),
    {
        let mut s = self;
        push_query(&mut s.params, "enable_logging", bool_to_string(enable));
        s
    }
    /// Authenticate with a single-use batch Scribe token.
    pub fn with_token(self, token: &str) -> (r: Self)
        ensures
            query_view(r.params@) == query_view(self.params@).push(("token"@, token@)),
    {
        let mut s = self;
        push_query(&mut s.params, "token", owned(token));
        s
    }
}

/// How multichannel input is transcribed.
#[derive(Clone, Copy, Debug, PartialEq, Eq, Structural)]
pub enum MultichannelOutputStyle {
    Separate,
    Combined,
}

pub open spec fn output_style_name(v: MultichannelOutputStyle) -> Seq<char> {
    match v {
        MultichannelOutputStyle::Separate => "separate"@,
        MultichannelOutputStyle::Combined => "combined"@,
    }
}

/// The name of each multichannel output style.
pub proof fn lemma_output_style_name_table()
    ensures
        output_style_name(MultichannelOutputStyle::Separate) == "separate"@,
        output_style_name(MultichannelOutputStyle::Combined) == "combined"@,
{
}

impl MultichannelOutputStyle {
    /// The wire name.
    pub fn as_str(self) -> (s: &'static str)
        ensures
            s@ == output_style_name(self),
    {
        match self {
            MultichannelOutputStyle::Separate => "separate",
            MultichannelOutputStyle::Combined => "combined",
        }
    }
}

/// The granularity of transcript timestamps.
#[derive(Clone, Copy, Debug, PartialEq, Eq, Structural)]
pub enum Granularity {
    Word,
    Character,
    NoTimestamps,
}

pub open spec fn granularity_name(v: Granularity) -> Seq<char> {
    match v {
        Granularity::Word => "word"@,
        Granularity::Character => "character"@,
        Granularity::NoTimestamps => "none"@,
    }
}

/// The name of each granularity.
pub proof fn lemma_granularity_name_table()
    ensures
        granularity_name(Granularity::Word) == "word"@,
        granularity_name(Granularity::Character) == "character"@,
        granularity_name(Granularity::NoTimestamps) == "none"@,
{
}

impl Granularity {
    /// The wire name.
    pub fn as_str(self) -> (s: &'static str)
        ensures
            s@ == granularity_name(self),
    {
        match self {
            Granularity::Word => "word",
            Granularity::Character => "character",
            Granularity::NoTimestamps => "none",
        }
    }
}

/// The granularity a name selects; unknown names select words.
pub open spec fn granularity_of(s: Seq<char>) -> Granularity {
    if s == "character"@ {
        Granularity::Character
    } else if s == "none"@ {
        Granularity::NoTimestamps
    } else {
        Granularity::Word
    }
}

/// The names a granularity is read from: `character` and `none` select
/// their own, and `word`, like any other name, selects words.
pub proof fn lemma_granularity_of_table(s: Seq<char>)
    ensures
        granularity_of("character"@) == Granularity::Character,
        granularity_of("none"@) == Granularity::NoTimestamps,
        granularity_of("word"@) == Granularity::Word,
        s != "character"@ && s != "none"@ ==> granularity_of(s) == Granularity::Word,
{
    reveal_strlit("character");
    reveal_strlit("none");
    reveal_strlit("word");
    assert("character"@.len() == 9);
    assert("none"@.len() == 4);
    assert("word"@.len() == 4);
    assert("word"@[0] != "none"@[0]);
}

impl Granularity {
    /// The granularity a name selects; unknown names select words.
    pub fn from_name(s: &str) -> (g: Self)
        ensures
            g == granularity_of(s@),
    {
        if str_eq(s, "character") {
            Granularity::Character
        } else if str_eq(s, "none") {
            Granularity::NoTimestamps
        } else {
            Granularity::Word
        }
    }
}

/// An additional transcript format the service produced.
#[derive(Clone, Debug)]
pub struct RequestedAdditionalFormat {
    pub requested_format: String,
    pub file_extension: String,
    pub content_type: String,
    pub is_base64_encoded: bool,
    pub content: String,
}

/// The kind of a transcribed token.
#[derive(Clone, Copy, Debug, PartialEq, Eq, Structural)]
pub enum WordType {
    Word,
    Spacing,
    AudioEvent,
}

/// An entity detected in a transcript, by character range.
#[derive(Clone, Debug)]
pub struct DetectedEntity {
    pub text: String,
    pub entity_type: String,
    pub start_char: u32,
    pub end_char: u32,
}

// ---------------------------------------------------------------------------
// Realtime transcription
// ---------------------------------------------------------------------------

/// The path of the realtime endpoint.
pub const WS_PATH: &'static str = "/v1/speech-to-text/realtime";

/// How realtime transcripts are committed.
#[derive(Clone, Copy, Debug, PartialEq, Eq, Structural)]
pub enum RealtimeCommitStrategy {
    Manual,
    Vad,
}

pub open spec fn commit_strategy_name(v: RealtimeCommitStrategy) -> Seq<char> {
    match v {
        RealtimeCommitStrategy::Manual => "manual"@,
        RealtimeCommitStrategy::Vad => "vad"@,
    }
}

/// The name of each realtime commit strategy.
pub proof fn lemma_commit_strategy_name_table()
    ensures
        commit_strategy_name(RealtimeCommitStrategy::Manual) == "manual"@,
        commit_strategy_name(RealtimeCommitStrategy::Vad) == "vad"@,
{
}

impl RealtimeCommitStrategy {
    /// The wire name.
    pub fn as_str(self) -> (s: &'static str)
        ensures
            s@ == commit_strategy_name(self),
    {
        match self {
            RealtimeCommitStrategy::Manual => "manual",
            RealtimeCommitStrategy::Vad => "vad",
        }
    }
}

/// Query parameters for realtime transcription sessions.
#[derive(Clone, Debug)]
pub struct RealtimeSpeechToTextQuery {
    pub params: QueryValues,
}

impl Default for RealtimeSpeechToTextQuery {
    fn default() -> (r: Self)
        ensures
            r.params@.len() == 0,
    {
        RealtimeSpeechToTextQuery { params: Vec::new() }
    }
}

/// Whether a query authenticates with a single-use token.
pub open spec fn has_token(q: Seq<(Seq<char>, Seq<char>)>) -> bool {
    exists|i: int| 0 <= i < q.len() && #[trigger] q[i].0 == "token"@
}

impl RealtimeSpeechToTextQuery {
    /// Authenticate with a single-use token instead of the API key header.
    pub fn with_token(self, token: &str) -> (r: Self)
        ensures
            query_view(r.params@) == query_view(self.params@).push(("token"@, token@)),
    {
        let mut s = self;
        push_query(&mut s.params, "token", owned(token));
        s
    }
    pub fn with_timestamps(self, include_timestamps: bool) -> (r: Self)
        ensures
            query_view(r.params@) == query_view(self.params@).push(("include_timestamps"@, bool_text(include_timestamps))),
    {
        let mut s = self;
        push_query(&mut s.params, "include_timestamps", bool_to_string(include_timestamps));
        s
    }
    pub fn with_language_detection(self, include_language_detection: bool) -> (r: Self)
        ensures
            query_view(r.params@) == query_view(self.params@).push(("include_language_detection"@, bool_text(include_language_detection))),
    {
        let mut s = self;
        push_query(&mut s.params, "include_language_detection", bool_to_string(include_language_detection));
        s
    }
    pub fn with_audio_format(self, audio_format: &str) -> (r: Self)
        ensures
            query_view(r.params@) == query_view(self.params@).push(("audio_format"@, audio_format@)),
    {
        let mut s = self;
        push_query(&mut s.params, "audio_format", owned(audio_format));
        s
    }
    pub fn with_language_code(self, language_code: &str) -> (r: Self)
        ensures
            query_view(r.params@) == query_view(self.params@).push(("language_code"@, language_code@)),
    {
        let mut s = self;
        push_query(&mut s.params, "language_code", owned(language_code));
        s
    }
    pub fn with_commit_strategy(self, commit_strategy: RealtimeCommitStrategy) -> (r: Self)
        ensures
            query_view(r.params@) == query_view(self.params@).push(("commit_strategy"@, commit_strategy_name(commit_strategy))),
    {
        let mut s = self;
        push_query(&mut s.params, "commit_strategy", owned(commit_strategy.as_str()));
        s
    }
    pub fn with_no_verbatim(self, no_verbatim: bool) -> (r: Self)
        ensures
            query_view(r.params@) == query_view(self.params@).push(("no_verbatim"@, bool_text(no_verbatim))),
    {
        let mut s = self;
        push_query(&mut s.params, "no_verbatim", bool_to_string(no_verbatim));
        s
    }
    /// Sets the silence, in seconds written as a decimal, after which voice
    /// activity detection commits.
    pub fn with_vad_silence_threshold_secs(self, seconds: &str) -> (r: Self)
        ensures
            query_view(r.params@) == query_view(self.params@).push(("vad_silence_threshold_secs"@, seconds@)),
    {
        let mut s = self;
        push_query(&mut s.params, "vad_silence_threshold_secs", owned(seconds));
        s
    }
    /// Sets the voice activity threshold, written as a decimal.
    pub fn with_vad_threshold(self, threshold: &str) -> (r: Self)
        ensures
            query_view(r.params@) == query_view(self.params@).push(("vad_threshold"@, threshold@)),
    {
        let mut s = self;
        push_query(&mut s.params, "vad_threshold", owned(threshold));
        s
    }
    pub fn with_min_speech_duration_ms(self, milliseconds: u32) -> (r: Self)
        ensures
            query_view(r.params@) == query_view(self.params@).push(("min_speech_duration_ms"@, decimal(milliseconds as nat))),
    {
        let mut s = self;
        push_query(&mut s.params, "min_speech_duration_ms", u64_to_string(milliseconds as u64));
        s
    }
    pub fn with_min_silence_duration_ms(self, milliseconds: u32) -> (r: Self)
        ensures
            query_view(r.params@) == query_view(self.params@).push(("min_silence_duration_ms"@, decimal(milliseconds as nat))),
    {
        let mut s = self;
        push_query(&mut s.params, "min_silence_duration_ms", u64_to_string(milliseconds as u64));
        s
    }
    pub fn with_logging(self, enable_logging: bool) -> (r: Self)
        ensures
            query_view(r.params@) == query_view(self.params@).push(("enable_logging"@, bool_text(enable_logging))),
    {
        let mut s = self;
        push_query(&mut s.params, "enable_logging", bool_to_string(enable_logging));
        s
    }

    /// Bias transcription towards key terms: one `keyterms` parameter each.
    pub fn with_keyterms(self, keyterms: &[&str]) -> (r: Self)
        ensures
            query_view(r.params@) == query_view(self.params@) + str_views(keyterms@).map_values(
                |t: Seq<char>| ("keyterms"@, t),
            ),
    {
        let mut s = self;
        let ghost start = query_view(s.params@);
        let mut i: usize = 0;
        while i < keyterms.len()
            invariant
                0 <= i <= keyterms@.len(),
                query_view(s.params@) == start + str_views(keyterms@.subrange(0, i as int)).map_values(
                    |t: Seq<char>| ("keyterms"@, t),
                ),
            decreases keyterms.len() - i,
        {
            push_query(&mut s.params, "keyterms", owned(keyterms[i]));
            assert(str_views(keyterms@.subrange(0, i + 1)).map_values(|t: Seq<char>| ("keyterms"@, t))
                =~= str_views(keyterms@.subrange(0, i as int)).map_values(
                |t: Seq<char>| ("keyterms"@, t),
            ).push(("keyterms"@, keyterms@[i as int]@)));
            i = i + 1;
        }
        assert(keyterms@.subrange(0, keyterms@.len() as int) =~= keyterms@);
        s
    }

    /// Whether a `token` parameter is set.
    pub fn uses_token_auth(&self) -> (b: bool)
        ensures
            b == has_token(query_view(self.params@)),
    {
        let mut i: usize = 0;
        while i < self.params.len()
            invariant
                0 <= i <= self.params@.len(),
                forall|k: int| 0 <= k < i ==> query_view(self.params@)[k].0 != "token"@,
            decreases self.params.len() - i,
        {
            if str_eq(self.params[i].0, "token") {
                assert(query_view(self.params@)[i as int].0 == "token"@);
                return true;
            }
            i = i + 1;
        }
        false
    }
}

/// One chunk of audio sent to a realtime session.
#[derive(Clone, Debug)]
pub struct RealtimeAudioChunk {
    pub audio_base_64: String,
    pub commit: Option<bool>,
    pub sample_rate: Option<u32>,
    pub previous_text: Option<String>,
}

impl RealtimeAudioChunk {
    /// A chunk of raw audio, which is sent base64-encoded.
    pub fn audio(audio: &[u8]) -> (r: Self)
        ensures
            r.audio_base_64@ == base64_encoding(audio@),
            r.commit is None && r.sample_rate is None && r.previous_text is None,
    {
        Self::audio_base64(base64_encode(audio).as_str())
    }

    /// A chunk of audio that is already base64-encoded.
    pub fn audio_base64(audio_base_64: &str) -> (r: Self)
        ensures
            r.audio_base_64@ == audio_base_64@,
            r.commit is None && r.sample_rate is None && r.previous_text is None,
    {
        RealtimeAudioChunk {
            audio_base_64: owned(audio_base_64),
            commit: None,
            sample_rate: None,
            previous_text: None,
        }
    }
}

/// A message from the client to a realtime session.
#[derive(Clone, Debug)]
pub enum RealtimeSpeechToTextInput {
    InputAudioChunk(RealtimeAudioChunk),
}

/// The chunk an input carries.
pub open spec fn input_chunk(i: RealtimeSpeechToTextInput) -> RealtimeAudioChunk {
    match i {
        RealtimeSpeechToTextInput::InputAudioChunk(c) => c,
    }
}

impl RealtimeSpeechToTextInput {
    /// An audio chunk from raw bytes.
    pub fn audio(audio: &[u8]) -> (r: Self)
        ensures
            input_chunk(r).audio_base_64@ == base64_encoding(audio@),
            input_chunk(r).commit is None && input_chunk(r).sample_rate is None && input_chunk(
                r,
            ).previous_text is None,
    {
        RealtimeSpeechToTextInput::InputAudioChunk(RealtimeAudioChunk::audio(audio))
    }

    /// An audio chunk from base64 text.
    pub fn audio_base64(audio_base_64: &str) -> (r: Self)
        ensures
            input_chunk(r).audio_base_64@ == audio_base_64@,
            input_chunk(r).commit is None && input_chunk(r).sample_rate is None && input_chunk(
                r,
            ).previous_text is None,
    {
        RealtimeSpeechToTextInput::InputAudioChunk(RealtimeAudioChunk::audio_base64(audio_base_64))
    }

    pub fn with_commit(self, commit: bool) -> (r: Self)
        ensures
            input_chunk(r) == (RealtimeAudioChunk { commit: Some(commit), ..input_chunk(self) }),
    {
        match self {
            RealtimeSpeechToTextInput::InputAudioChunk(c) => RealtimeSpeechToTextInput::InputAudioChunk(
                RealtimeAudioChunk { commit: Some(commit), ..c },
            ),
        }
    }

    pub fn with_sample_rate(self, sample_rate: u32) -> (r: Self)
        ensures
            input_chunk(r) == (RealtimeAudioChunk { sample_rate: Some(sample_rate), ..input_chunk(self) }),
    {
        match self {
            RealtimeSpeechToTextInput::InputAudioChunk(c) => RealtimeSpeechToTextInput::InputAudioChunk(
                RealtimeAudioChunk { sample_rate: Some(sample_rate), ..c },
            ),
        }
    }

    pub fn with_previous_text(self, previous_text: &str) -> (r: Self)
        ensures
            input_chunk(r).previous_text matches Some(t) && t@ == previous_text@,
            input_chunk(r) == (RealtimeAudioChunk { previous_text: input_chunk(r).previous_text, ..input_chunk(self) }),
    {
        match self {
            RealtimeSpeechToTextInput::InputAudioChunk(c) => RealtimeSpeechToTextInput::InputAudioChunk(
                RealtimeAudioChunk { previous_text: Some(owned(previous_text)), ..c },
            ),
        }
    }
}

/// How a WebSocket connection authenticates.
#[derive(Clone, Copy, Debug, PartialEq, Eq, Structural)]
pub enum WebSocketAuth {
    /// The API key goes in the `xi-api-key` header.
    XiApiKeyHeader,
    /// A token in the URL authenticates.
    TokenInUrl,
}

/// Realtime transcription over a WebSocket: the model, the audio to send and
/// the query.
#[derive(Debug)]
pub struct RealtimeSpeechToText<S> {
    pub model_id: String,
    pub input_stream: S,
    pub query: RealtimeSpeechToTextQuery,
}

impl<S> RealtimeSpeechToText<S> {
    pub fn new(model_id: &str, input_stream: S) -> (r: Self)
        ensures
            r.model_id@ == model_id@,
            r.input_stream == input_stream,
            r.query.params@.len() == 0,
    {
        RealtimeSpeechToText {
            model_id: owned(model_id),
            input_stream,
            query: RealtimeSpeechToTextQuery::default(),
        }
    }

    pub fn with_query(self, query: RealtimeSpeechToTextQuery) -> (r: Self)
        ensures
            r == (RealtimeSpeechToText { query, ..self }),
    {
        RealtimeSpeechToText { query, ..self }
    }

    /// The query sent: the model first, then the query parameters.
    pub fn query_values(&self) -> (q: QueryValues)
        ensures
            query_view(q@) == seq![("model_id"@, self.model_id@)] + query_view(self.query.params@),
    {
        let mut q: QueryValues = Vec::new();
        push_query(&mut q, "model_id", self.model_id.clone());
        let rest = clone_query(&self.query.params);
        let ghost first = q@;
        let mut i: usize = 0;
        while i < rest.len()
            invariant
                0 <= i <= rest@.len(),
                query_view(rest@) == query_view(self.query.params@),
                query_view(q@) == query_view(first) + query_view(rest@).subrange(0, i as int),
            decreases rest.len() - i,
        {
            let (name, value) = &rest[i];
            push_query(&mut q, *name, value.clone());
            assert(query_view(rest@).subrange(0, i + 1) =~= query_view(rest@).subrange(0, i as int).push(
                query_view(rest@)[i as int],
            ));
            i = i + 1;
        }
        assert(query_view(rest@).subrange(0, rest@.len() as int) =~= query_view(rest@));
        q
    }

    /// The URL of the session.
    pub fn url(&self) -> (r: Result<String, Error>)
        ensures
            match request_url_spec(
                WS_BASE_URL@,
                WS_PATH@,
                seq![],
                Some(seq![("model_id"@, self.model_id@)] + query_view(self.query.params@)),
            ) {
                Ok(t) => r matches Ok(s) && s@ == t,
                Err(_) => r is Err,
            },
    {
        let q = self.query_values();
        let no_params: Vec<(&'static str, String)> = Vec::new();
        assert(params_view(no_params@) =~= seq![]);
        websocket_url(WS_BASE_URL, WS_PATH, no_params.as_slice(), &q)
    }

    /// The API key header, unless a single-use token authenticates.
    pub fn auth(&self) -> (a: WebSocketAuth)
        ensures
            a == (if has_token(query_view(self.query.params@)) {
                WebSocketAuth::TokenInUrl
            } else {
                WebSocketAuth::XiApiKeyHeader
            }),
    {
        if self.query.uses_token_auth() {
            WebSocketAuth::TokenInUrl
        } else {
            WebSocketAuth::XiApiKeyHeader
        }
    }

    /// The realtime session closes once all the audio has been sent.
    pub fn close_after_inputs(&self) -> (b: bool)
        ensures
            b,
    {
        true
    }

    /// The name the session's errors carry.
    pub fn endpoint_name(&self) -> (n: &'static str)
        ensures
            n@ == "speech_to_text.realtime"@,
    {
        "speech_to_text.realtime"
    }
}

impl<S> crate::ws::Sealed for RealtimeSpeechToText<S> {}

/// The kinds of messages a realtime session sends, by `message_type`.
#[derive(Clone, Copy, Debug, PartialEq, Eq, Structural)]
pub enum RealtimeMessageKind {
    SessionStarted,
    PartialTranscript,
    CommittedTranscript,
    CommittedTranscriptWithTimestamps,
    ScribeError,
    ScribeAuthError,
    ScribeQuotaExceededError,
    ScribeThrottledError,
    ScribeUnacceptedTermsError,
    ScribeRateLimitedError,
    ScribeQueueOverflowError,
    ScribeResourceExhaustedError,
    ScribeSessionTimeLimitExceededError,
    ScribeInputError,
    ScribeChunkSizeExceededError,
    ScribeInsufficientAudioActivityError,
    ScribeTranscriberError,
    InvalidRequest,
    InputError,
    /// A message type this crate does not model.
    Unknown,
}

/// The `message_type` of a known kind.
pub open spec fn message_kind_name(k: RealtimeMessageKind) -> Seq<char> {
    match k {
        RealtimeMessageKind::SessionStarted => "session_started"@,
        RealtimeMessageKind::PartialTranscript => "partial_transcript"@,
        RealtimeMessageKind::CommittedTranscript => "committed_transcript"@,
        RealtimeMessageKind::CommittedTranscriptWithTimestamps => "committed_transcript_with_timestamps"@,
        RealtimeMessageKind::ScribeError => "scribe_error"@,
        RealtimeMessageKind::ScribeAuthError => "scribe_auth_error"@,
        RealtimeMessageKind::ScribeQuotaExceededError => "scribe_quota_exceeded_error"@,
        RealtimeMessageKind::ScribeThrottledError => "scribe_throttled_error"@,
        RealtimeMessageKind::ScribeUnacceptedTermsError => "scribe_unaccepted_terms_error"@,
        RealtimeMessageKind::ScribeRateLimitedError => "scribe_rate_limited_error"@,
        RealtimeMessageKind::ScribeQueueOverflowError => "scribe_queue_overflow_error"@,
        RealtimeMessageKind::ScribeResourceExhaustedError => "scribe_resource_exhausted_error"@,
        RealtimeMessageKind::ScribeSessionTimeLimitExceededError => "scribe_session_time_limit_exceeded_error"@,
        RealtimeMessageKind::ScribeInputError => "scribe_input_error"@,
        RealtimeMessageKind::ScribeChunkSizeExceededError => "scribe_chunk_size_exceeded_error"@,
        RealtimeMessageKind::ScribeInsufficientAudioActivityError => "scribe_insufficient_audio_activity_error"@,
        RealtimeMessageKind::ScribeTranscriberError => "scribe_transcriber_error"@,
        RealtimeMessageKind::InvalidRequest => "invalid_request"@,
        RealtimeMessageKind::InputError => "input_error"@,
        RealtimeMessageKind::Unknown => seq![],
    }
}

/// The kind a `message_type` names.
pub open spec fn message_kind_of(s: Seq<char>) -> RealtimeMessageKind {
    if s == "session_started"@ {
        RealtimeMessageKind::SessionStarted
    } else if s == "partial_transcript"@ {
        RealtimeMessageKind::PartialTranscript
    } else if s == "committed_transcript"@ {
        RealtimeMessageKind::CommittedTranscript
    } else if s == "committed_transcript_with_timestamps"@ {
        RealtimeMessageKind::CommittedTranscriptWithTimestamps
    } else if s == "scribe_error"@ {
        RealtimeMessageKind::ScribeError
    } else if s == "scribe_auth_error"@ {
        RealtimeMessageKind::ScribeAuthError
    } else if s == "scribe_quota_exceeded_error"@ {
        RealtimeMessageKind::ScribeQuotaExceededError
    } else if s == "scribe_throttled_error"@ {
        RealtimeMessageKind::ScribeThrottledError
    } else if s == "scribe_unaccepted_terms_error"@ {
        RealtimeMessageKind::ScribeUnacceptedTermsError
    } else if s == "scribe_rate_limited_error"@ {
        RealtimeMessageKind::ScribeRateLimitedError
    } else if s == "scribe_queue_overflow_error"@ {
        RealtimeMessageKind::ScribeQueueOverflowError
    } else if s == "scribe_resource_exhausted_error"@ {
        RealtimeMessageKind::ScribeResourceExhaustedError
    } else if s == "scribe_session_time_limit_exceeded_error"@ {
        RealtimeMessageKind::ScribeSessionTimeLimitExceededError
    } else if s == "scribe_input_error"@ {
        RealtimeMessageKind::ScribeInputError
    } else if s == "scribe_chunk_size_exceeded_error"@ {
        RealtimeMessageKind::ScribeChunkSizeExceededError
    } else if s == "scribe_insufficient_audio_activity_error"@ {
        RealtimeMessageKind::ScribeInsufficientAudioActivityError
    } else if s == "scribe_transcriber_error"@ {
        RealtimeMessageKind::ScribeTranscriberError
    } else if s == "invalid_request"@ {
        RealtimeMessageKind::InvalidRequest
    } else if s == "input_error"@ {
        RealtimeMessageKind::InputError
    } else {
        RealtimeMessageKind::Unknown
    }
}

/// Whether a kind reports an error.
pub open spec fn is_error_kind(k: RealtimeMessageKind) -> bool {
    k == RealtimeMessageKind::ScribeError || k == RealtimeMessageKind::ScribeAuthError || k == RealtimeMessageKind::ScribeQuotaExceededError || k == RealtimeMessageKind::ScribeThrottledError || k == RealtimeMessageKind::ScribeUnacceptedTermsError || k == RealtimeMessageKind::ScribeRateLimitedError || k == RealtimeMessageKind::ScribeQueueOverflowError || k == RealtimeMessageKind::ScribeResourceExhaustedError || k == RealtimeMessageKind::ScribeSessionTimeLimitExceededError || k == RealtimeMessageKind::ScribeInputError || k == RealtimeMessageKind::ScribeChunkSizeExceededError || k == RealtimeMessageKind::ScribeInsufficientAudioActivityError || k == RealtimeMessageKind::ScribeTranscriberError || k == RealtimeMessageKind::InvalidRequest || k == RealtimeMessageKind::InputError
}

/// Whether a kind carries transcript text.
pub open spec fn has_transcript_kind(k: RealtimeMessageKind) -> bool {
    k == RealtimeMessageKind::PartialTranscript || k == RealtimeMessageKind::CommittedTranscript
        || k == RealtimeMessageKind::CommittedTranscriptWithTimestamps
}

impl RealtimeMessageKind {
    /// The kind a `message_type` names.
    pub fn from_message_type(s: &str) -> (k: Self)
        ensures
            k == message_kind_of(s@),
    {
        if str_eq(s, "session_started") {
            RealtimeMessageKind::SessionStarted
        } else if str_eq(s, "partial_transcript") {
            RealtimeMessageKind::PartialTranscript
        } else if str_eq(s, "committed_transcript") {
            RealtimeMessageKind::CommittedTranscript
        } else if str_eq(s, "committed_transcript_with_timestamps") {
            RealtimeMessageKind::CommittedTranscriptWithTimestamps
        } else if str_eq(s, "scribe_error") {
            RealtimeMessageKind::ScribeError
        } else if str_eq(s, "scribe_auth_error") {
            RealtimeMessageKind::ScribeAuthError
        } else if str_eq(s, "scribe_quota_exceeded_error") {
            RealtimeMessageKind::ScribeQuotaExceededError
        } else if str_eq(s, "scribe_throttled_error") {
            RealtimeMessageKind::ScribeThrottledError
        } else if str_eq(s, "scribe_unaccepted_terms_error") {
            RealtimeMessageKind::ScribeUnacceptedTermsError
        } else if str_eq(s, "scribe_rate_limited_error") {
            RealtimeMessageKind::ScribeRateLimitedError
        } else if str_eq(s, "scribe_queue_overflow_error") {
            RealtimeMessageKind::ScribeQueueOverflowError
        } else if str_eq(s, "scribe_resource_exhausted_error") {
            RealtimeMessageKind::ScribeResourceExhaustedError
        } else if str_eq(s, "scribe_session_time_limit_exceeded_error") {
            RealtimeMessageKind::ScribeSessionTimeLimitExceededError
        } else if str_eq(s, "scribe_input_error") {
            RealtimeMessageKind::ScribeInputError
        } else if str_eq(s, "scribe_chunk_size_exceeded_error") {
            RealtimeMessageKind::ScribeChunkSizeExceededError
        } else if str_eq(s, "scribe_insufficient_audio_activity_error") {
            RealtimeMessageKind::ScribeInsufficientAudioActivityError
        } else if str_eq(s, "scribe_transcriber_error") {
            RealtimeMessageKind::ScribeTranscriberError
        } else if str_eq(s, "invalid_request") {
            RealtimeMessageKind::InvalidRequest
        } else if str_eq(s, "input_error") {
            RealtimeMessageKind::InputError
        } else {
            RealtimeMessageKind::Unknown
        }
    }

    /// The `message_type` of a known kind; `None` for an unknown one, whose
    /// message keeps its own.
    pub fn message_type(self) -> (r: Option<&'static str>)
        ensures
            self == RealtimeMessageKind::Unknown <==> r is None,
            r matches Some(s) ==> s@ == message_kind_name(self),
    {
        match self {
            RealtimeMessageKind::Unknown => None,
            _ => Some(self.known_name()),
        }
    }

    fn known_name(self) -> (s: &'static str)
        requires
            self != RealtimeMessageKind::Unknown,
        ensures
            s@ == message_kind_name(self),
    {
        match self {
            RealtimeMessageKind::SessionStarted => "session_started",
            RealtimeMessageKind::PartialTranscript => "partial_transcript",
            RealtimeMessageKind::CommittedTranscript => "committed_transcript",
            RealtimeMessageKind::CommittedTranscriptWithTimestamps => "committed_transcript_with_timestamps",
            RealtimeMessageKind::ScribeError => "scribe_error",
            RealtimeMessageKind::ScribeAuthError => "scribe_auth_error",
            RealtimeMessageKind::ScribeQuotaExceededError => "scribe_quota_exceeded_error",
            RealtimeMessageKind::ScribeThrottledError => "scribe_throttled_error",
            RealtimeMessageKind::ScribeUnacceptedTermsError => "scribe_unaccepted_terms_error",
            RealtimeMessageKind::ScribeRateLimitedError => "scribe_rate_limited_error",
            RealtimeMessageKind::ScribeQueueOverflowError => "scribe_queue_overflow_error",
            RealtimeMessageKind::ScribeResourceExhaustedError => "scribe_resource_exhausted_error",
            RealtimeMessageKind::ScribeSessionTimeLimitExceededError => "scribe_session_time_limit_exceeded_error",
            RealtimeMessageKind::ScribeInputError => "scribe_input_error",
            RealtimeMessageKind::ScribeChunkSizeExceededError => "scribe_chunk_size_exceeded_error",
            RealtimeMessageKind::ScribeInsufficientAudioActivityError => "scribe_insufficient_audio_activity_error",
            RealtimeMessageKind::ScribeTranscriberError => "scribe_transcriber_error",
            RealtimeMessageKind::InvalidRequest => "invalid_request",
            RealtimeMessageKind::InputError => "input_error",
            RealtimeMessageKind::Unknown => "",
        }
    }

    /// Whether messages of this kind report an error.
    pub fn is_error(self) -> (b: bool)
        ensures
            b == is_error_kind(self),
    {
        match self {
            RealtimeMessageKind::ScribeError => true,
            RealtimeMessageKind::ScribeAuthError => true,
            RealtimeMessageKind::ScribeQuotaExceededError => true,
            RealtimeMessageKind::ScribeThrottledError => true,
            RealtimeMessageKind::ScribeUnacceptedTermsError => true,
            RealtimeMessageKind::ScribeRateLimitedError => true,
            RealtimeMessageKind::ScribeQueueOverflowError => true,
            RealtimeMessageKind::ScribeResourceExhaustedError => true,
            RealtimeMessageKind::ScribeSessionTimeLimitExceededError => true,
            RealtimeMessageKind::ScribeInputError => true,
            RealtimeMessageKind::ScribeChunkSizeExceededError => true,
            RealtimeMessageKind::ScribeInsufficientAudioActivityError => true,
            RealtimeMessageKind::ScribeTranscriberError => true,
            RealtimeMessageKind::InvalidRequest => true,
            RealtimeMessageKind::InputError => true,
            _ => false,
        }
    }

    /// Whether messages of this kind carry transcript text.
    pub fn has_transcript(self) -> (b: bool)
        ensures
            b == has_transcript_kind(self),
    {
        match self {
            RealtimeMessageKind::PartialTranscript => true,
            RealtimeMessageKind::CommittedTranscript => true,
            RealtimeMessageKind::CommittedTranscriptWithTimestamps => true,
            _ => false,
        }
    }
}

/// Reading back the `message_type` of a known kind gives the same kind, and a
/// type read as unknown is the name of no known kind.
pub proof fn lemma_message_kind_round_trip(k: RealtimeMessageKind, s: Seq<char>)
    ensures
        k != RealtimeMessageKind::Unknown ==> message_kind_of(message_kind_name(k)) == k,
        message_kind_of(s) == RealtimeMessageKind::Unknown ==> forall|j: RealtimeMessageKind|
            j != RealtimeMessageKind::Unknown ==> #[trigger] message_kind_name(j) != s,
{
    reveal_strlit("session_started");
    assert("session_started"@.len() == 15);
    reveal_strlit("partial_transcript");
    assert("partial_transcript"@.len() == 18);
    reveal_strlit("committed_transcript");
    assert("committed_transcript"@.len() == 20);
    reveal_strlit("committed_transcript_with_timestamps");
    assert("committed_transcript_with_timestamps"@.len() == 36);
    reveal_strlit("scribe_error");
    assert("scribe_error"@.len() == 12);
    reveal_strlit("scribe_auth_error");
    assert("scribe_auth_error"@.len() == 17);
    reveal_strlit("scribe_quota_exceeded_error");
    assert("scribe_quota_exceeded_error"@.len() == 27);
    reveal_strlit("scribe_throttled_error");
    assert("scribe_throttled_error"@.len() == 22);
    reveal_strlit("scribe_unaccepted_terms_error");
    assert("scribe_unaccepted_terms_error"@.len() == 29);
    reveal_strlit("scribe_rate_limited_error");
    assert("scribe_rate_limited_error"@.len() == 25);
    reveal_strlit("scribe_queue_overflow_error");
    assert("scribe_queue_overflow_error"@.len() == 27);
    reveal_strlit("scribe_resource_exhausted_error");
    assert("scribe_resource_exhausted_error"@.len() == 31);
    reveal_strlit("scribe_session_time_limit_exceeded_error");
    assert("scribe_session_time_limit_exceeded_error"@.len() == 40);
    reveal_strlit("scribe_input_error");
    assert("scribe_input_error"@.len() == 18);
    reveal_strlit("scribe_chunk_size_exceeded_error");
    assert("scribe_chunk_size_exceeded_error"@.len() == 32);
    reveal_strlit("scribe_insufficient_audio_activity_error");
    assert("scribe_insufficient_audio_activity_error"@.len() == 40);
    reveal_strlit("scribe_transcriber_error");
    assert("scribe_transcriber_error"@.len() == 24);
    reveal_strlit("invalid_request");
    assert("invalid_request"@.len() == 15);
    reveal_strlit("input_error");
    assert("input_error"@.len() == 11);
    match k {
        RealtimeMessageKind::SessionStarted => {
            assert(message_kind_of("session_started"@) == k);
        },
        RealtimeMessageKind::PartialTranscript => {
            assert(message_kind_of("partial_transcript"@) == k);
        },
        RealtimeMessageKind::CommittedTranscript => {
            assert(message_kind_of("committed_transcript"@) == k);
        },
        RealtimeMessageKind::CommittedTranscriptWithTimestamps => {
            assert(message_kind_of("committed_transcript_with_timestamps"@) == k);
        },
        RealtimeMessageKind::ScribeError => {
            assert(message_kind_of("scribe_error"@) == k);
        },
        RealtimeMessageKind::ScribeAuthError => {
            assert(message_kind_of("scribe_auth_error"@) == k);
        },
        RealtimeMessageKind::ScribeQuotaExceededError => {
            assert(message_kind_of("scribe_quota_exceeded_error"@) == k);
        },
        RealtimeMessageKind::ScribeThrottledError => {
            assert(message_kind_of("scribe_throttled_error"@) == k);
        },
        RealtimeMessageKind::ScribeUnacceptedTermsError => {
            assert(message_kind_of("scribe_unaccepted_terms_error"@) == k);
        },
        RealtimeMessageKind::ScribeRateLimitedError => {
            assert(message_kind_of("scribe_rate_limited_error"@) == k);
        },
        RealtimeMessageKind::ScribeQueueOverflowError => {
            assert("scribe_queue_overflow_error"@[9] != "scribe_quota_exceeded_error"@[9]);
            assert(message_kind_of("scribe_queue_overflow_error"@) == k);
        },
        RealtimeMessageKind::ScribeResourceExhaustedError => {
            assert(message_kind_of("scribe_resource_exhausted_error"@) == k);
        },
        RealtimeMessageKind::ScribeSessionTimeLimitExceededError => {
            assert(message_kind_of("scribe_session_time_limit_exceeded_error"@) == k);
        },
        RealtimeMessageKind::ScribeInputError => {
            assert("scribe_input_error"@[0] != "partial_transcript"@[0]);
            assert(message_kind_of("scribe_input_error"@) == k);
        },
        RealtimeMessageKind::ScribeChunkSizeExceededError => {
            assert(message_kind_of("scribe_chunk_size_exceeded_error"@) == k);
        },
        RealtimeMessageKind::ScribeInsufficientAudioActivityError => {
            assert("scribe_insufficient_audio_activity_error"@[7] != "scribe_session_time_limit_exceeded_error"@[7]);
            assert(message_kind_of("scribe_insufficient_audio_activity_error"@) == k);
        },
        RealtimeMessageKind::ScribeTranscriberError => {
            assert(message_kind_of("scribe_transcriber_error"@) == k);
        },
        RealtimeMessageKind::InvalidRequest => {
            assert("invalid_request"@[0] != "session_started"@[0]);
            assert(message_kind_of("invalid_request"@) == k);
        },
        RealtimeMessageKind::InputError => {
            assert(message_kind_of("input_error"@) == k);
        },
        RealtimeMessageKind::Unknown => {},
    }
}

} // verus!

verus! {

// ---------------------------------------------------------------------------
// Batch transcription
// ---------------------------------------------------------------------------

/// The MIME type a file to transcribe is sent with, from its extension
/// (compared case-insensitively): `audio/` or `video/` and the subtype.
pub open spec fn transcript_mime_spec(e: Seq<char>, prefer_video: bool) -> Option<Seq<char>> {
    match file_type_spec(lowercase(e), prefer_video) {
        Some((video, s)) => Some((if video { "video/"@ } else { "audio/"@ }) + s),
        None => None,
    }
}

/// The transcript MIME table, with or without the preference for video.
pub open spec fn transcript_mimes(prefer_video: bool) -> spec_fn(Seq<char>) -> Option<Seq<char>> {
    |e: Seq<char>| transcript_mime_spec(e, prefer_video)
}

/// The MIME type to send with a file to transcribe: `None` when the file
/// carries its own, else the one its extension gives.
pub fn transcript_file_mime(file: &FilePart, prefer_video: bool) -> (r: Result<Option<String>, Error>)
    ensures
        mime_result_matches(r, inferred_mime_spec(*file, transcript_mimes(prefer_video))),
{
    if file.mime().is_some() {
        return Ok(None);
    }
    let ext = file.extension()?;
    let t = TranscriptFileType::from_extension(ext.as_str(), prefer_video)?;
    Ok(Some(t.mime_type()))
}

/// The body of a transcription request.
#[derive(Clone, Debug)]
pub struct CreateTranscriptBody {
    pub model_id: String,
    pub file: FilePart,
    pub language_code: Option<String>,
    pub tag_audio_events: Option<bool>,
    pub num_speakers: Option<u32>,
    pub timestamps_granularity: Option<Granularity>,
    pub diarize: Option<bool>,
    pub multichannel_output_style: Option<MultichannelOutputStyle>,
    /// The additional formats, as the JSON array the form carries.
    pub additional_formats: Option<String>,
    /// Read `webm` and `mp4` files as video.
    pub prefer_video: Option<bool>,
}

pub open spec fn opt_granularity_view(g: Option<Granularity>) -> Option<Seq<char>> {
    match g {
        Some(g) => Some(granularity_name(g)),
        None => None,
    }
}

pub open spec fn opt_style_view(s: Option<MultichannelOutputStyle>) -> Option<Seq<char>> {
    match s {
        Some(s) => Some(output_style_name(s)),
        None => None,
    }
}

/// The optional text fields of a transcription form, in the order they are
/// sent.
pub open spec fn transcript_texts(b: CreateTranscriptBody) -> Seq<(Seq<char>, Seq<char>)> {
    opt_field("language_code"@, opt_view(b.language_code))
        + opt_field("tag_audio_events"@, opt_bool_view(b.tag_audio_events))
        + opt_field("num_speakers"@, opt_u32_view(b.num_speakers))
        + opt_field("timestamps_granularity"@, opt_granularity_view(b.timestamps_granularity))
        + opt_field("diarize"@, opt_bool_view(b.diarize))
        + opt_field("multichannel_output_style"@, opt_style_view(b.multichannel_output_style))
        + opt_field("additional_formats"@, opt_view(b.additional_formats))
}

/// Whether the body reads `webm` and `mp4` files as video.
pub open spec fn prefers_video(b: CreateTranscriptBody) -> bool {
    b.prefer_video == Some(true)
}

impl CreateTranscriptBody {
    /// A body for `file` with every option unset.
    pub fn new(model_id: &str, file: FilePart) -> (r: Self)
        ensures
            r.model_id@ == model_id@,
            r.file == file,
            r.language_code is None,
            r.tag_audio_events is None,
            r.num_speakers is None,
            r.timestamps_granularity is None,
            r.diarize is None,
            r.multichannel_output_style is None,
            r.additional_formats is None,
            r.prefer_video is None,
    {
        CreateTranscriptBody {
            model_id: owned(model_id),
            file,
            language_code: None,
            tag_audio_events: None,
            num_speakers: None,
            timestamps_granularity: None,
            diarize: None,
            multichannel_output_style: None,
            additional_formats: None,
            prefer_video: None,
        }
    }

    /// A body for a file held in memory.
    pub fn from_bytes(model_id: &str, file_name: &str, mime: &str, bytes: Vec<u8>) -> (r: Self)
        ensures
            r.model_id@ == model_id@,
            r.file matches FilePart::Bytes { file_name: n, mime: m, bytes: b } && n@ == file_name@
                && m@ == mime@ && b@ == bytes@,
            r.language_code is None,
            r.tag_audio_events is None,
            r.num_speakers is None,
            r.timestamps_granularity is None,
            r.diarize is None,
            r.multichannel_output_style is None,
            r.additional_formats is None,
            r.prefer_video is None,
    {
        Self::new(model_id, FilePart::bytes(file_name, mime, bytes))
    }

    pub fn with_language_code(self, language_code: &str) -> (r: Self)
        ensures
            opt_view(r.language_code) == Some(language_code@),
            r == (CreateTranscriptBody { language_code: r.language_code, ..self }),
    {
        let mut s = self;
        s.language_code = Some(owned(language_code));
        s
    }

    pub fn with_tag_audio_events(self, tag_audio_events: bool) -> (r: Self)
        ensures
            r == (CreateTranscriptBody { tag_audio_events: Some(tag_audio_events), ..self }),
    {
        let mut s = self;
        s.tag_audio_events = Some(tag_audio_events);
        s
    }

    pub fn with_num_speakers(self, num_speakers: u32) -> (r: Self)
        ensures
            r == (CreateTranscriptBody { num_speakers: Some(num_speakers), ..self }),
    {
        let mut s = self;
        s.num_speakers = Some(num_speakers);
        s
    }

    pub fn with_timestamps_granularity(self, timestamps_granularity: Granularity) -> (r: Self)
        ensures
            r == (CreateTranscriptBody { timestamps_granularity: Some(timestamps_granularity), ..self }),
    {
        let mut s = self;
        s.timestamps_granularity = Some(timestamps_granularity);
        s
    }

    pub fn with_diarize(self, diarize: bool) -> (r: Self)
        ensures
            r == (CreateTranscriptBody { diarize: Some(diarize), ..self }),
    {
        let mut s = self;
        s.diarize = Some(diarize);
        s
    }

    /// Choose whether multichannel input is returned as separate transcripts
    /// or as one combined transcript.
    pub fn with_multichannel_output_style(self, output_style: MultichannelOutputStyle) -> (r: Self)
        ensures
            r == (CreateTranscriptBody { multichannel_output_style: Some(output_style), ..self }),
    {
        let mut s = self;
        s.multichannel_output_style = Some(output_style);
        s
    }

    /// Asks for additional formats, given as the JSON array of their
    /// descriptions.
    pub fn with_additional_formats(self, additional_formats_json: &str) -> (r: Self)
        ensures
            opt_view(r.additional_formats) == Some(additional_formats_json@),
            r == (CreateTranscriptBody { additional_formats: r.additional_formats, ..self }),
    {
        let mut s = self;
        s.additional_formats = Some(owned(additional_formats_json));
        s
    }

    /// Read `webm` and `mp4` files as video rather than audio.
    pub fn prefer_video(self) -> (r: Self)
        ensures
            r == (CreateTranscriptBody { prefer_video: Some(true), ..self }),
    {
        let mut s = self;
        s.prefer_video = Some(true);
        s
    }

    /// The optional text fields: language, audio-event tagging, speaker
    /// count, timestamp granularity, diarization, multichannel style and
    /// additional formats, each when set.
    pub fn text_fields(&self) -> (r: QueryValues)
        ensures
            query_view(r@) == transcript_texts(*self),
    {
        let mut v: QueryValues = Vec::new();
        assert(query_view(v@) =~= seq![]);
        push_opt(&mut v, "language_code", clone_opt(&self.language_code));
        push_opt(&mut v, "tag_audio_events", bool_opt(self.tag_audio_events));
        let n = match self.num_speakers {
            Some(n) => Some(u64_to_string(n as u64)),
            None => None,
        };
        push_opt(&mut v, "num_speakers", n);
        let g = match self.timestamps_granularity {
            Some(g) => Some(owned(g.as_str())),
            None => None,
        };
        push_opt(&mut v, "timestamps_granularity", g);
        push_opt(&mut v, "diarize", bool_opt(self.diarize));
        let o = match self.multichannel_output_style {
            Some(o) => Some(owned(o.as_str())),
            None => None,
        };
        push_opt(&mut v, "multichannel_output_style", o);
        push_opt(&mut v, "additional_formats", clone_opt(&self.additional_formats));
        assert(seq![] + opt_field("language_code"@, opt_view(self.language_code)) =~= opt_field(
            "language_code"@,
            opt_view(self.language_code),
        ));
        v
    }

    /// The multipart form: the model, the file with its inferred MIME type,
    /// then the text fields that are set. A file that carries no MIME type
    /// and whose extension is missing or unknown is refused.
    pub fn form_parts(&self) -> (r: Result<Vec<FormPart>, Error>)
        ensures
            match inferred_mime_spec(self.file, transcript_mimes(prefers_video(*self))) {
                Err(e) => r == Err::<Vec<FormPart>, Error>(e),
                Ok(m) => r matches Ok(v) && {
                    let t = transcript_texts(*self);
                    &&& v@.len() == 2 + t.len()
                    &&& is_text_part(v@[0], "model_id"@, self.model_id@)
                    &&& is_file_part(v@[1], "file"@, self.file, m)
                    &&& forall|i: int| 0 <= i < t.len() ==> is_text_part(#[trigger] v@[2 + i], t[i].0, t[i].1)
                },
            },
    {
        let prefer = match self.prefer_video {
            Some(p) => p,
            None => false,
        };
        let mime = match transcript_file_mime(&self.file, prefer) {
            Ok(m) => m,
            Err(e) => return Err(e),
        };
        let mut v: Vec<FormPart> = Vec::new();
        v.push(text_part("model_id", self.model_id.clone()));
        v.push(FormPart::File { name: "file", file: self.file.copy(), mime });
        let fields = self.text_fields();
        let ghost t = query_view(fields@);
        let mut i: usize = 0;
        while i < fields.len()
            invariant
                0 <= i <= fields@.len(),
                t == query_view(fields@),
                v@.len() == 2 + i,
                is_text_part(v@[0], "model_id"@, self.model_id@),
                is_file_part(v@[1], "file"@, self.file, opt_view(mime)),
                forall|j: int| 0 <= j < i ==> is_text_part(#[trigger] v@[2 + j], t[j].0, t[j].1),
            decreases fields.len() - i,
        {
            let ghost before = v@;
            let (name, value) = &fields[i];
            v.push(text_part(*name, value.clone()));
            proof {
                assert forall|j: int| 0 <= j < i + 1 implies is_text_part(#[trigger] v@[2 + j], t[j].0, t[j].1) by {
                    if j < i {
                        assert(v@[2 + j] == before[2 + j]);
                    }
                }
            }
            i = i + 1;
        }
        Ok(v)
    }
}

/// Transcribes an audio or video file.
#[derive(Clone, Debug)]
pub struct CreateTranscript {
    pub body: CreateTranscriptBody,
    pub query: Option<CreateTranscriptQuery>,
}

impl CreateTranscript {
    pub fn new(body: CreateTranscriptBody) -> (r: Self)
        ensures
            r.body == body,
            r.query is None,
    {
        CreateTranscript { body, query: None }
    }

    pub fn with_query(self, query: CreateTranscriptQuery) -> (r: Self)
        ensures
            r.body == self.body,
            r.query == Some(query),
    {
        CreateTranscript { body: self.body, query: Some(query) }
    }
}

impl ElevenLabsEndpoint for CreateTranscript {
    fn path(&self) -> (p: &'static str)
        ensures
            p@ == "/v1/speech-to-text"@,
    {
        "/v1/speech-to-text"
    }

    fn method(&self) -> (m: HttpMethod)
        ensures
            m == HttpMethod::Post,
    {
        HttpMethod::Post
    }

    fn query_params(&self) -> (r: Option<QueryValues>)
        ensures
            opt_query_view(r) == match self.query {
                Some(q) => Some(query_view(q.params@)),
                None => None::<Seq<(Seq<char>, Seq<char>)>>,
            },
    {
        match &self.query {
            Some(q) => Some(clone_query(&q.params)),
            None => None,
        }
    }

    fn path_params(&self) -> (r: Vec<(&'static str, String)>)
        ensures
            r@.len() == 0,
    {
        Vec::new()
    }
}

} // verus!

verus! {

// ---------------------------------------------------------------------------
// Realtime server messages
// ---------------------------------------------------------------------------

/// The start of a realtime session: its id, its configuration as JSON text,
/// and the other fields of the message as a JSON object.
#[derive(Clone, Debug)]
pub struct RealtimeSessionStarted {
    pub session_id: String,
    pub config: String,
    pub extra: String,
}

/// A partial or committed transcript, and the other fields of the message as
/// a JSON object.
#[derive(Clone, Debug)]
pub struct RealtimeTranscript {
    pub text: String,
    pub extra: String,
}

/// A committed transcript sent with word timings: its text, language, the
/// words as a JSON array, and the other fields as a JSON object.
#[derive(Clone, Debug)]
pub struct RealtimeTranscriptWithTimestamps {
    pub text: String,
    pub language_code: Option<String>,
    pub words: String,
    pub extra: String,
}

/// An error the service reports in a realtime session, and the other fields
/// of the message as a JSON object.
#[derive(Clone, Debug)]
pub struct RealtimeSpeechToTextError {
    pub message: Option<String>,
    pub code: Option<String>,
    pub extra: String,
}

/// A message of a type this crate does not model: its type, and the rest of
/// the message, without `message_type`, as a JSON object.
#[derive(Clone, Debug)]
pub struct UnknownRealtimeSpeechToTextMessage {
    pub message_type: String,
    pub payload: String,
}

/// A server message of a realtime transcription session.
#[derive(Clone, Debug)]
pub enum RealtimeSpeechToTextResponse {
    SessionStarted(RealtimeSessionStarted),
    PartialTranscript(RealtimeTranscript),
    CommittedTranscript(RealtimeTranscript),
    CommittedTranscriptWithTimestamps(RealtimeTranscriptWithTimestamps),
    ScribeError(RealtimeSpeechToTextError),
    ScribeAuthError(RealtimeSpeechToTextError),
    ScribeQuotaExceededError(RealtimeSpeechToTextError),
    ScribeThrottledError(RealtimeSpeechToTextError),
    ScribeUnacceptedTermsError(RealtimeSpeechToTextError),
    ScribeRateLimitedError(RealtimeSpeechToTextError),
    ScribeQueueOverflowError(RealtimeSpeechToTextError),
    ScribeResourceExhaustedError(RealtimeSpeechToTextError),
    ScribeSessionTimeLimitExceededError(RealtimeSpeechToTextError),
    ScribeInputError(RealtimeSpeechToTextError),
    ScribeChunkSizeExceededError(RealtimeSpeechToTextError),
    ScribeInsufficientAudioActivityError(RealtimeSpeechToTextError),
    ScribeTranscriberError(RealtimeSpeechToTextError),
    InvalidRequest(RealtimeSpeechToTextError),
    InputError(RealtimeSpeechToTextError),
    Unknown(UnknownRealtimeSpeechToTextMessage),
}

/// The kind of a message.
pub open spec fn response_kind(r: RealtimeSpeechToTextResponse) -> RealtimeMessageKind {
    match r {
        RealtimeSpeechToTextResponse::SessionStarted(_) => RealtimeMessageKind::SessionStarted,
        RealtimeSpeechToTextResponse::PartialTranscript(_) => RealtimeMessageKind::PartialTranscript,
        RealtimeSpeechToTextResponse::CommittedTranscript(_) => RealtimeMessageKind::CommittedTranscript,
        RealtimeSpeechToTextResponse::CommittedTranscriptWithTimestamps(_) => RealtimeMessageKind::CommittedTranscriptWithTimestamps,
        RealtimeSpeechToTextResponse::ScribeError(_) => RealtimeMessageKind::ScribeError,
        RealtimeSpeechToTextResponse::ScribeAuthError(_) => RealtimeMessageKind::ScribeAuthError,
        RealtimeSpeechToTextResponse::ScribeQuotaExceededError(_) => RealtimeMessageKind::ScribeQuotaExceededError,
        RealtimeSpeechToTextResponse::ScribeThrottledError(_) => RealtimeMessageKind::ScribeThrottledError,
        RealtimeSpeechToTextResponse::ScribeUnacceptedTermsError(_) => RealtimeMessageKind::ScribeUnacceptedTermsError,
        RealtimeSpeechToTextResponse::ScribeRateLimitedError(_) => RealtimeMessageKind::ScribeRateLimitedError,
        RealtimeSpeechToTextResponse::ScribeQueueOverflowError(_) => RealtimeMessageKind::ScribeQueueOverflowError,
        RealtimeSpeechToTextResponse::ScribeResourceExhaustedError(_) => RealtimeMessageKind::ScribeResourceExhaustedError,
        RealtimeSpeechToTextResponse::ScribeSessionTimeLimitExceededError(_) => RealtimeMessageKind::ScribeSessionTimeLimitExceededError,
        RealtimeSpeechToTextResponse::ScribeInputError(_) => RealtimeMessageKind::ScribeInputError,
        RealtimeSpeechToTextResponse::ScribeChunkSizeExceededError(_) => RealtimeMessageKind::ScribeChunkSizeExceededError,
        RealtimeSpeechToTextResponse::ScribeInsufficientAudioActivityError(_) => RealtimeMessageKind::ScribeInsufficientAudioActivityError,
        RealtimeSpeechToTextResponse::ScribeTranscriberError(_) => RealtimeMessageKind::ScribeTranscriberError,
        RealtimeSpeechToTextResponse::InvalidRequest(_) => RealtimeMessageKind::InvalidRequest,
        RealtimeSpeechToTextResponse::InputError(_) => RealtimeMessageKind::InputError,
        RealtimeSpeechToTextResponse::Unknown(_) => RealtimeMessageKind::Unknown,
    }
}

/// The `message_type` a message was sent with.
pub open spec fn response_message_type(r: RealtimeSpeechToTextResponse) -> Seq<char> {
    match r {
        RealtimeSpeechToTextResponse::Unknown(u) => u.message_type@,
        _ => message_kind_name(response_kind(r)),
    }
}

/// The text of a transcript message.
pub open spec fn response_text(r: RealtimeSpeechToTextResponse) -> Option<Seq<char>> {
    match r {
        RealtimeSpeechToTextResponse::PartialTranscript(t) => Some(t.text@),
        RealtimeSpeechToTextResponse::CommittedTranscript(t) => Some(t.text@),
        RealtimeSpeechToTextResponse::CommittedTranscriptWithTimestamps(t) => Some(t.text@),
        _ => None,
    }
}

/// The error an error message carries.
pub open spec fn response_error(r: RealtimeSpeechToTextResponse) -> Option<RealtimeSpeechToTextError> {
    match r {
        RealtimeSpeechToTextResponse::ScribeError(e) => Some(e),
        RealtimeSpeechToTextResponse::ScribeAuthError(e) => Some(e),
        RealtimeSpeechToTextResponse::ScribeQuotaExceededError(e) => Some(e),
        RealtimeSpeechToTextResponse::ScribeThrottledError(e) => Some(e),
        RealtimeSpeechToTextResponse::ScribeUnacceptedTermsError(e) => Some(e),
        RealtimeSpeechToTextResponse::ScribeRateLimitedError(e) => Some(e),
        RealtimeSpeechToTextResponse::ScribeQueueOverflowError(e) => Some(e),
        RealtimeSpeechToTextResponse::ScribeResourceExhaustedError(e) => Some(e),
        RealtimeSpeechToTextResponse::ScribeSessionTimeLimitExceededError(e) => Some(e),
        RealtimeSpeechToTextResponse::ScribeInputError(e) => Some(e),
        RealtimeSpeechToTextResponse::ScribeChunkSizeExceededError(e) => Some(e),
        RealtimeSpeechToTextResponse::ScribeInsufficientAudioActivityError(e) => Some(e),
        RealtimeSpeechToTextResponse::ScribeTranscriberError(e) => Some(e),
        RealtimeSpeechToTextResponse::InvalidRequest(e) => Some(e),
        RealtimeSpeechToTextResponse::InputError(e) => Some(e),
        _ => None,
    }
}

impl RealtimeSpeechToTextResponse {
    /// The kind of this message.
    pub fn kind(&self) -> (k: RealtimeMessageKind)
        ensures
            k == response_kind(*self),
    {
        match self {
            RealtimeSpeechToTextResponse::SessionStarted(_) => RealtimeMessageKind::SessionStarted,
            RealtimeSpeechToTextResponse::PartialTranscript(_) => RealtimeMessageKind::PartialTranscript,
            RealtimeSpeechToTextResponse::CommittedTranscript(_) => RealtimeMessageKind::CommittedTranscript,
            RealtimeSpeechToTextResponse::CommittedTranscriptWithTimestamps(_) => RealtimeMessageKind::CommittedTranscriptWithTimestamps,
            RealtimeSpeechToTextResponse::ScribeError(_) => RealtimeMessageKind::ScribeError,
            RealtimeSpeechToTextResponse::ScribeAuthError(_) => RealtimeMessageKind::ScribeAuthError,
            RealtimeSpeechToTextResponse::ScribeQuotaExceededError(_) => RealtimeMessageKind::ScribeQuotaExceededError,
            RealtimeSpeechToTextResponse::ScribeThrottledError(_) => RealtimeMessageKind::ScribeThrottledError,
            RealtimeSpeechToTextResponse::ScribeUnacceptedTermsError(_) => RealtimeMessageKind::ScribeUnacceptedTermsError,
            RealtimeSpeechToTextResponse::ScribeRateLimitedError(_) => RealtimeMessageKind::ScribeRateLimitedError,
            RealtimeSpeechToTextResponse::ScribeQueueOverflowError(_) => RealtimeMessageKind::ScribeQueueOverflowError,
            RealtimeSpeechToTextResponse::ScribeResourceExhaustedError(_) => RealtimeMessageKind::ScribeResourceExhaustedError,
            RealtimeSpeechToTextResponse::ScribeSessionTimeLimitExceededError(_) => RealtimeMessageKind::ScribeSessionTimeLimitExceededError,
            RealtimeSpeechToTextResponse::ScribeInputError(_) => RealtimeMessageKind::ScribeInputError,
            RealtimeSpeechToTextResponse::ScribeChunkSizeExceededError(_) => RealtimeMessageKind::ScribeChunkSizeExceededError,
            RealtimeSpeechToTextResponse::ScribeInsufficientAudioActivityError(_) => RealtimeMessageKind::ScribeInsufficientAudioActivityError,
            RealtimeSpeechToTextResponse::ScribeTranscriberError(_) => RealtimeMessageKind::ScribeTranscriberError,
            RealtimeSpeechToTextResponse::InvalidRequest(_) => RealtimeMessageKind::InvalidRequest,
            RealtimeSpeechToTextResponse::InputError(_) => RealtimeMessageKind::InputError,
            RealtimeSpeechToTextResponse::Unknown(_) => RealtimeMessageKind::Unknown,
        }
    }

    /// The `message_type` of this message.
    pub fn message_type(&self) -> (s: &str)
        ensures
            s@ == response_message_type(*self),
    {
        match self {
            RealtimeSpeechToTextResponse::Unknown(u) => u.message_type.as_str(),
            _ => match self.kind().message_type() {
                Some(s) => s,
                None => "",
            },
        }
    }

    /// The text of a partial or committed transcript; `None` for other
    /// messages.
    pub fn transcript_text(&self) -> (r: Option<&str>)
        ensures
            r is Some <==> has_transcript_kind(response_kind(*self)),
            match *self {
                RealtimeSpeechToTextResponse::PartialTranscript(t) => r matches Some(s) && s@ == t.text@,
                RealtimeSpeechToTextResponse::CommittedTranscript(t) => r matches Some(s) && s@ == t.text@,
                RealtimeSpeechToTextResponse::CommittedTranscriptWithTimestamps(t) => r matches Some(s) && s@ == t.text@,
                _ => r is None,
            },
            match response_text(*self) {
                Some(t) => r matches Some(s) && s@ == t,
                None => r is None,
            },
    {
        match self {
            RealtimeSpeechToTextResponse::PartialTranscript(t) => Some(t.text.as_str()),
            RealtimeSpeechToTextResponse::CommittedTranscript(t) => Some(t.text.as_str()),
            RealtimeSpeechToTextResponse::CommittedTranscriptWithTimestamps(t) => Some(t.text.as_str()),
            _ => None,
        }
    }

    /// The error an error message carries; `None` for other messages.
    pub fn error(&self) -> (r: Option<&RealtimeSpeechToTextError>)
        ensures
            r is Some <==> is_error_kind(response_kind(*self)),
            match response_error(*self) {
                Some(e) => r matches Some(x) && *x == e,
                None => r is None,
            },
    {
        match self {
            RealtimeSpeechToTextResponse::ScribeError(e) => Some(e),
            RealtimeSpeechToTextResponse::ScribeAuthError(e) => Some(e),
            RealtimeSpeechToTextResponse::ScribeQuotaExceededError(e) => Some(e),
            RealtimeSpeechToTextResponse::ScribeThrottledError(e) => Some(e),
            RealtimeSpeechToTextResponse::ScribeUnacceptedTermsError(e) => Some(e),
            RealtimeSpeechToTextResponse::ScribeRateLimitedError(e) => Some(e),
            RealtimeSpeechToTextResponse::ScribeQueueOverflowError(e) => Some(e),
            RealtimeSpeechToTextResponse::ScribeResourceExhaustedError(e) => Some(e),
            RealtimeSpeechToTextResponse::ScribeSessionTimeLimitExceededError(e) => Some(e),
            RealtimeSpeechToTextResponse::ScribeInputError(e) => Some(e),
            RealtimeSpeechToTextResponse::ScribeChunkSizeExceededError(e) => Some(e),
            RealtimeSpeechToTextResponse::ScribeInsufficientAudioActivityError(e) => Some(e),
            RealtimeSpeechToTextResponse::ScribeTranscriberError(e) => Some(e),
            RealtimeSpeechToTextResponse::InvalidRequest(e) => Some(e),
            RealtimeSpeechToTextResponse::InputError(e) => Some(e),
            _ => None,
        }
    }

    /// Whether this message reports an error.
    pub fn is_error(&self) -> (b: bool)
        ensures
            b == is_error_kind(response_kind(*self)),
    {
        self.error().is_some()
    }
}

} // verus!

verus! {

/// The text and other fields of a partial or committed transcript.
pub open spec fn transcript_of(r: RealtimeSpeechToTextResponse) -> Option<(Seq<char>, Seq<char>)> {
    match r {
        RealtimeSpeechToTextResponse::PartialTranscript(t) => Some((t.text@, t.extra@)),
        RealtimeSpeechToTextResponse::CommittedTranscript(t) => Some((t.text@, t.extra@)),
        _ => None,
    }
}

/// `r` is the JSON error with message `m`.
pub open spec fn json_err<T>(r: Result<T, Error>, m: Seq<char>) -> bool {
    r matches Err(Error::JsonError(e)) && e@ == m
}

/// What a realtime server message of kind `k` and type `t` with entries
/// `es` reads as. Each modelled type takes its own fields, which must be
/// present and of their types unless optional, and keeps the others as a
/// JSON object; a type this crate does not model keeps the whole message but
/// its `message_type`.
pub open spec fn realtime_from(r: Result<RealtimeSpeechToTextResponse, Error>, k: RealtimeMessageKind, t: Seq<char>, es: Seq<(Seq<char>, Seq<char>)>) -> bool {
    if k == RealtimeMessageKind::SessionStarted {
        match field_string(es, "session_id"@) {
            Err(m) => json_err(r, m),
            Ok(id) => match field_value(es, "config"@) {
                Err(m) => json_err(r, m),
                Ok(c) => r matches Ok(RealtimeSpeechToTextResponse::SessionStarted(s)) && s.session_id@ == id && s.config@ == c
                    && s.extra@ == rest_text(es, seq!["session_id"@, "config"@]),
            },
        }
    } else if k == RealtimeMessageKind::PartialTranscript || k == RealtimeMessageKind::CommittedTranscript {
        match field_string(es, "text"@) {
            Err(m) => json_err(r, m),
            Ok(x) => r matches Ok(v) && response_kind(v) == k && transcript_of(v) == Some((x, rest_text(es, seq!["text"@]))),
        }
    } else if k == RealtimeMessageKind::CommittedTranscriptWithTimestamps {
        match field_string(es, "text"@) {
            Err(m) => json_err(r, m),
            Ok(x) => match field_opt_string(es, "language_code"@) {
                Err(m) => json_err(r, m),
                Ok(l) => match field_value(es, "words"@) {
                    Err(m) => json_err(r, m),
                    Ok(w) => r matches Ok(RealtimeSpeechToTextResponse::CommittedTranscriptWithTimestamps(c)) && c.text@ == x
                        && opt_view(c.language_code) == l && c.words@ == w
                        && c.extra@ == rest_text(es, seq!["text"@, "language_code"@, "words"@]),
                },
            },
        }
    } else if is_error_kind(k) {
        match field_opt_string(es, "message"@) {
            Err(m) => json_err(r, m),
            Ok(msg) => match field_opt_string(es, "code"@) {
                Err(m) => json_err(r, m),
                Ok(code) => r matches Ok(v) && response_kind(v) == k && (response_error(v) matches Some(e)
                    && opt_view(e.message) == msg && opt_view(e.code) == code
                    && e.extra@ == rest_text(es, seq!["message"@, "code"@])),
            },
        }
    } else {
        r matches Ok(RealtimeSpeechToTextResponse::Unknown(u)) && u.message_type@ == t && u.payload@ == rest_text(es, seq!["message_type"@])
    }
}

/// What a realtime server message's JSON text reads as: a JSON object whose
/// `message_type` string picks the shape.
pub open spec fn realtime_parsed(r: Result<RealtimeSpeechToTextResponse, Error>, text: Seq<char>) -> bool {
    match object_entries(text) {
        Err(m) => json_err(r, m),
        Ok(es) => match field_string(es, "message_type"@) {
            Err(m) => json_err(r, m),
            Ok(t) => realtime_from(r, message_kind_of(t), t, es),
        },
    }
}

/// The error message of kind `k`.
fn error_response(k: RealtimeMessageKind, e: RealtimeSpeechToTextError) -> (r: RealtimeSpeechToTextResponse)
    requires
        is_error_kind(k),
    ensures
        response_kind(r) == k,
        response_error(r) == Some(e),
{
    match k {
        RealtimeMessageKind::ScribeError => RealtimeSpeechToTextResponse::ScribeError(e),
        RealtimeMessageKind::ScribeAuthError => RealtimeSpeechToTextResponse::ScribeAuthError(e),
        RealtimeMessageKind::ScribeQuotaExceededError => RealtimeSpeechToTextResponse::ScribeQuotaExceededError(e),
        RealtimeMessageKind::ScribeThrottledError => RealtimeSpeechToTextResponse::ScribeThrottledError(e),
        RealtimeMessageKind::ScribeUnacceptedTermsError => RealtimeSpeechToTextResponse::ScribeUnacceptedTermsError(e),
        RealtimeMessageKind::ScribeRateLimitedError => RealtimeSpeechToTextResponse::ScribeRateLimitedError(e),
        RealtimeMessageKind::ScribeQueueOverflowError => RealtimeSpeechToTextResponse::ScribeQueueOverflowError(e),
        RealtimeMessageKind::ScribeResourceExhaustedError => RealtimeSpeechToTextResponse::ScribeResourceExhaustedError(e),
        RealtimeMessageKind::ScribeSessionTimeLimitExceededError => RealtimeSpeechToTextResponse::ScribeSessionTimeLimitExceededError(e),
        RealtimeMessageKind::ScribeInputError => RealtimeSpeechToTextResponse::ScribeInputError(e),
        RealtimeMessageKind::ScribeChunkSizeExceededError => RealtimeSpeechToTextResponse::ScribeChunkSizeExceededError(e),
        RealtimeMessageKind::ScribeInsufficientAudioActivityError => RealtimeSpeechToTextResponse::ScribeInsufficientAudioActivityError(e),
        RealtimeMessageKind::ScribeTranscriberError => RealtimeSpeechToTextResponse::ScribeTranscriberError(e),
        RealtimeMessageKind::InvalidRequest => RealtimeSpeechToTextResponse::InvalidRequest(e),
        RealtimeMessageKind::InputError => RealtimeSpeechToTextResponse::InputError(e),
        _ => RealtimeSpeechToTextResponse::InputError(e),
    }
}

fn json_error<T>(m: String) -> (r: Result<T, Error>)
    ensures
        json_err(r, m@),
{
    Err(Error::JsonError(m))
}

/// Reads a realtime server message from its JSON text.
pub fn parse_realtime_response(text: &str) -> (r: Result<RealtimeSpeechToTextResponse, Error>)
    ensures
        realtime_parsed(r, text@),
{
    let es = match parse_entries(text) {
        Ok(es) => es,
        Err(m) => return json_error(m),
    };
    let t = match get_string(&es, "message_type") {
        Ok(t) => t,
        Err(m) => return json_error(m),
    };
    let k = RealtimeMessageKind::from_message_type(t.as_str());
    match k {
        RealtimeMessageKind::SessionStarted => {
            let id = match get_string(&es, "session_id") {
                Ok(x) => x,
                Err(m) => return json_error(m),
            };
            let config = match get_value(&es, "config") {
                Ok(x) => x,
                Err(m) => return json_error(m),
            };
            let extra = rest_without2(&es, "session_id", "config");
            Ok(RealtimeSpeechToTextResponse::SessionStarted(RealtimeSessionStarted { session_id: id, config, extra }))
        },
        RealtimeMessageKind::PartialTranscript | RealtimeMessageKind::CommittedTranscript => {
            let x = match get_string(&es, "text") {
                Ok(x) => x,
                Err(m) => return json_error(m),
            };
            let extra = rest_without1(&es, "text");
            let t = RealtimeTranscript { text: x, extra };
            if k == RealtimeMessageKind::PartialTranscript {
                Ok(RealtimeSpeechToTextResponse::PartialTranscript(t))
            } else {
                Ok(RealtimeSpeechToTextResponse::CommittedTranscript(t))
            }
        },
        RealtimeMessageKind::CommittedTranscriptWithTimestamps => {
            let x = match get_string(&es, "text") {
                Ok(x) => x,
                Err(m) => return json_error(m),
            };
            let l = match get_opt_string(&es, "language_code") {
                Ok(x) => x,
                Err(m) => return json_error(m),
            };
            let w = match get_value(&es, "words") {
                Ok(x) => x,
                Err(m) => return json_error(m),
            };
            let extra = rest_without3(&es, "text", "language_code", "words");
            Ok(RealtimeSpeechToTextResponse::CommittedTranscriptWithTimestamps(
                RealtimeTranscriptWithTimestamps { text: x, language_code: l, words: w, extra },
            ))
        },
        RealtimeMessageKind::Unknown => {
            let payload = rest_without1(&es, "message_type");
            Ok(RealtimeSpeechToTextResponse::Unknown(UnknownRealtimeSpeechToTextMessage { message_type: t, payload }))
        },
        _ => {
            let msg = match get_opt_string(&es, "message") {
                Ok(x) => x,
                Err(m) => return json_error(m),
            };
            let code = match get_opt_string(&es, "code") {
                Ok(x) => x,
                Err(m) => return json_error(m),
            };
            let extra = rest_without2(&es, "message", "code");
            Ok(error_response(k, RealtimeSpeechToTextError { message: msg, code, extra }))
        },
    }
}

/// A message read from JSON gives back the `message_type` it was written
/// with, for every type, modelled or not.
pub proof fn lemma_realtime_type_read_back(text: Seq<char>, r: Result<RealtimeSpeechToTextResponse, Error>)
    requires
        realtime_parsed(r, text),
        r is Ok,
    ensures
        object_entries(text) matches Ok(es) && field_string(es, "message_type"@) matches Ok(t)
            && response_message_type(r->Ok_0) == t,
{
}

/// A message read from JSON carries an error exactly when its type is one of
/// the error types, and then the error's message is the message's `message`
/// field.
pub proof fn lemma_realtime_error_iff_error_type(text: Seq<char>, r: Result<RealtimeSpeechToTextResponse, Error>)
    requires
        realtime_parsed(r, text),
        r is Ok,
    ensures
        object_entries(text) matches Ok(es) && field_string(es, "message_type"@) matches Ok(t)
            && (response_error(r->Ok_0) is Some <==> is_error_kind(message_kind_of(t)))
            && (response_error(r->Ok_0) matches Some(e) ==> (field_opt_string(es, "message"@) matches Ok(m)
                && opt_view(e.message) == m)),
{
}

/// The kinds that carry transcript text are exactly the partial, the
/// committed and the committed-with-timestamps transcripts.
pub proof fn lemma_transcript_kinds(k: RealtimeMessageKind)
    ensures
        has_transcript_kind(k) <==> (k == RealtimeMessageKind::PartialTranscript
            || k == RealtimeMessageKind::CommittedTranscript
            || k == RealtimeMessageKind::CommittedTranscriptWithTimestamps),
{
}

/// A message read from JSON has transcript text exactly when its
/// `message_type` is `partial_transcript`, `committed_transcript` or
/// `committed_transcript_with_timestamps`, and that text is the message's
/// `text` field; its kind then carries a transcript.
pub proof fn lemma_realtime_transcript_text(text: Seq<char>, r: Result<RealtimeSpeechToTextResponse, Error>)
    requires
        realtime_parsed(r, text),
        r is Ok,
    ensures
        object_entries(text) matches Ok(es) && field_string(es, "message_type"@) matches Ok(t) && {
            &&& (t == "partial_transcript"@ || t == "committed_transcript"@
                || t == "committed_transcript_with_timestamps"@) <==> response_text(r->Ok_0) is Some
            &&& (t == "partial_transcript"@ || t == "committed_transcript"@
                || t == "committed_transcript_with_timestamps"@) ==> has_transcript_kind(response_kind(r->Ok_0))
            &&& response_text(r->Ok_0) matches Some(x) ==> field_string(es, "text"@) == Ok::<Seq<char>, Seq<char>>(x)
        },
{
    let es = object_entries(text)->Ok_0;
    let t = field_string(es, "message_type"@)->Ok_0;
    lemma_message_kind_round_trip(RealtimeMessageKind::PartialTranscript, t);
    lemma_message_kind_round_trip(RealtimeMessageKind::CommittedTranscript, t);
    lemma_message_kind_round_trip(RealtimeMessageKind::CommittedTranscriptWithTimestamps, t);
}

/// The `message_type` names of a realtime session, each with the kind it
/// reads as.
pub proof fn lemma_realtime_message_type_table()
    ensures
        message_kind_of("session_started"@) == RealtimeMessageKind::SessionStarted,
        message_kind_of("partial_transcript"@) == RealtimeMessageKind::PartialTranscript,
        message_kind_of("committed_transcript"@) == RealtimeMessageKind::CommittedTranscript,
        message_kind_of("committed_transcript_with_timestamps"@) == RealtimeMessageKind::CommittedTranscriptWithTimestamps,
        message_kind_of("scribe_error"@) == RealtimeMessageKind::ScribeError,
        message_kind_of("scribe_auth_error"@) == RealtimeMessageKind::ScribeAuthError,
        message_kind_of("scribe_quota_exceeded_error"@) == RealtimeMessageKind::ScribeQuotaExceededError,
        message_kind_of("scribe_throttled_error"@) == RealtimeMessageKind::ScribeThrottledError,
        message_kind_of("scribe_unaccepted_terms_error"@) == RealtimeMessageKind::ScribeUnacceptedTermsError,
        message_kind_of("scribe_rate_limited_error"@) == RealtimeMessageKind::ScribeRateLimitedError,
        message_kind_of("scribe_queue_overflow_error"@) == RealtimeMessageKind::ScribeQueueOverflowError,
        message_kind_of("scribe_resource_exhausted_error"@) == RealtimeMessageKind::ScribeResourceExhaustedError,
        message_kind_of("scribe_session_time_limit_exceeded_error"@) == RealtimeMessageKind::ScribeSessionTimeLimitExceededError,
        message_kind_of("scribe_input_error"@) == RealtimeMessageKind::ScribeInputError,
        message_kind_of("scribe_chunk_size_exceeded_error"@) == RealtimeMessageKind::ScribeChunkSizeExceededError,
        message_kind_of("scribe_insufficient_audio_activity_error"@) == RealtimeMessageKind::ScribeInsufficientAudioActivityError,
        message_kind_of("scribe_transcriber_error"@) == RealtimeMessageKind::ScribeTranscriberError,
        message_kind_of("invalid_request"@) == RealtimeMessageKind::InvalidRequest,
        message_kind_of("input_error"@) == RealtimeMessageKind::InputError,
{
    let t = Seq::<char>::empty();
    lemma_message_kind_round_trip(RealtimeMessageKind::SessionStarted, t);
    lemma_message_kind_round_trip(RealtimeMessageKind::PartialTranscript, t);
    lemma_message_kind_round_trip(RealtimeMessageKind::CommittedTranscript, t);
    lemma_message_kind_round_trip(RealtimeMessageKind::CommittedTranscriptWithTimestamps, t);
    lemma_message_kind_round_trip(RealtimeMessageKind::ScribeError, t);
    lemma_message_kind_round_trip(RealtimeMessageKind::ScribeAuthError, t);
    lemma_message_kind_round_trip(RealtimeMessageKind::ScribeQuotaExceededError, t);
    lemma_message_kind_round_trip(RealtimeMessageKind::ScribeThrottledError, t);
    lemma_message_kind_round_trip(RealtimeMessageKind::ScribeUnacceptedTermsError, t);
    lemma_message_kind_round_trip(RealtimeMessageKind::ScribeRateLimitedError, t);
    lemma_message_kind_round_trip(RealtimeMessageKind::ScribeQueueOverflowError, t);
    lemma_message_kind_round_trip(RealtimeMessageKind::ScribeResourceExhaustedError, t);
    lemma_message_kind_round_trip(RealtimeMessageKind::ScribeSessionTimeLimitExceededError, t);
    lemma_message_kind_round_trip(RealtimeMessageKind::ScribeInputError, t);
    lemma_message_kind_round_trip(RealtimeMessageKind::ScribeChunkSizeExceededError, t);
    lemma_message_kind_round_trip(RealtimeMessageKind::ScribeInsufficientAudioActivityError, t);
    lemma_message_kind_round_trip(RealtimeMessageKind::ScribeTranscriberError, t);
    lemma_message_kind_round_trip(RealtimeMessageKind::InvalidRequest, t);
    lemma_message_kind_round_trip(RealtimeMessageKind::InputError, t);
}

/// A `message_type` reads as an error kind exactly when it is one of the
/// fifteen error names.
pub proof fn lemma_realtime_error_types(t: Seq<char>)
    ensures
        is_error_kind(message_kind_of(t)) <==> (t == "scribe_error"@ || t == "scribe_auth_error"@ || t == "scribe_quota_exceeded_error"@ || t == "scribe_throttled_error"@ || t == "scribe_unaccepted_terms_error"@ || t == "scribe_rate_limited_error"@ || t == "scribe_queue_overflow_error"@ || t == "scribe_resource_exhausted_error"@ || t == "scribe_session_time_limit_exceeded_error"@ || t == "scribe_input_error"@ || t == "scribe_chunk_size_exceeded_error"@ || t == "scribe_insufficient_audio_activity_error"@ || t == "scribe_transcriber_error"@ || t == "invalid_request"@ || t == "input_error"@),
{
    lemma_realtime_message_type_table();
}

} // verus!
