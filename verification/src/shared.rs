//! Types shared by many endpoints: query parameters, HTTP methods, request
//! bodies, file parts, output formats and dictionary locators.
use vstd::prelude::*;

use crate::bytes::copy_range;
use crate::error::Error;
use crate::endpoints::genai::speech_to_text::{file_type_spec, TranscriptFileType};
use crate::text::{chars_of, concat2, opt_view, owned, str_eq, string_from, to_lowercase, lowercase};

verus! {

broadcast use vstd::string::group_string_axioms;

// ---------------------------------------------------------------------------
// Query parameters
// ---------------------------------------------------------------------------

/// Query parameters in the order they are sent.
pub type QueryValues = Vec<(&'static str, String)>;

/// The names and values of query parameters as character sequences.
pub open spec fn query_view(q: Seq<(&'static str, String)>) -> Seq<(Seq<char>, Seq<char>)> {
    q.map_values(|p: (&'static str, String)| (p.0@, p.1@))
}

/// Appends one query parameter.
pub fn push_query(params: &mut QueryValues, name: &'static str, value: String)
    ensures
        query_view(final(params)@) == query_view(old(params)@).push((name@, value@)),
{
    let ghost before = params@;
    params.push((name, value));
    assert(query_view(params@) =~= query_view(before).push((name@, value@)));
}

/// A copy of a list of query parameters.
pub fn clone_query(q: &QueryValues) -> (r: QueryValues)
    ensures
        query_view(r@) == query_view(q@),
{
    let mut r: QueryValues = Vec::new();
    let mut i: usize = 0;
    while i < q.len()
        invariant
            0 <= i <= q@.len(),
            query_view(r@) == query_view(q@.subrange(0, i as int)),
        decreases q.len() - i,
    {
        let (name, value) = &q[i];
        let ghost before = r@;
        r.push((*name, value.clone()));
        assert(query_view(r@) =~= query_view(before).push((name@, value@)));
        assert(query_view(q@.subrange(0, i + 1)) =~= query_view(q@.subrange(0, i as int)).push(
            (name@, value@),
        ));
        i = i + 1;
    }
    assert(q@.subrange(0, q@.len() as int) =~= q@);
    r
}

/// The query parameters of an optional query, copied.
pub open spec fn opt_query_view(q: Option<QueryValues>) -> Option<Seq<(Seq<char>, Seq<char>)>> {
    match q {
        Some(p) => Some(query_view(p@)),
        None => None,
    }
}

// ---------------------------------------------------------------------------
// HTTP methods and request bodies
// ---------------------------------------------------------------------------

/// The HTTP method of an endpoint.
#[derive(Clone, Copy, Debug, PartialEq, Eq, Structural)]
pub enum HttpMethod {
    Get,
    Post,
    Patch,
    Delete,
}

/// One part of a multipart form, in the order it is sent.
#[derive(Clone, Debug)]
pub enum FormPart {
    /// A text field.
    Text { name: &'static str, value: String },
    /// A file field; `mime` is the MIME type inferred from the file name when
    /// the file does not carry one.
    File { name: &'static str, file: FilePart, mime: Option<String> },
}

pub open spec fn is_text_part(p: FormPart, name: Seq<char>, value: Seq<char>) -> bool {
    p matches FormPart::Text { name: n, value: v } && n@ == name && v@ == value
}

pub open spec fn is_file_part(p: FormPart, name: Seq<char>, file: FilePart, mime: Option<Seq<char>>) -> bool {
    p matches FormPart::File { name: n, file: f, mime: m } && n@ == name && file_view(f) == file_view(file)
        && opt_view(m) == mime
}

/// What a file part holds: its path or file name, and for an in-memory file
/// its MIME type and bytes.
pub open spec fn file_view(f: FilePart) -> (Seq<char>, Option<(Seq<char>, Seq<u8>)>) {
    match f {
        FilePart::Path(p) => (p@, None),
        FilePart::Bytes { file_name, mime, bytes } => (file_name@, Some((mime@, bytes@))),
    }
}

/// The MIME types to send with a list of files, in order; the first file
/// whose type cannot be inferred gives the error.
pub open spec fn infer_all(fs: Seq<FilePart>, mime_of: spec_fn(Seq<char>) -> Option<Seq<char>>) -> Result<Seq<Option<Seq<char>>>, Error>
    decreases fs.len(),
{
    if fs.len() == 0 {
        Ok(seq![])
    } else {
        match infer_all(fs.drop_last(), mime_of) {
            Err(e) => Err(e),
            Ok(ms) => match inferred_mime_spec(fs.last(), mime_of) {
                Err(e) => Err(e),
                Ok(m) => Ok(ms.push(m)),
            },
        }
    }
}

/// An error in the files up to `i` is the error of all the files.
pub proof fn lemma_infer_prefix_err(fs: Seq<FilePart>, mime_of: spec_fn(Seq<char>) -> Option<Seq<char>>, i: int)
    requires
        0 <= i <= fs.len(),
        infer_all(fs.take(i), mime_of) is Err,
    ensures
        infer_all(fs, mime_of) == infer_all(fs.take(i), mime_of),
    decreases fs.len() - i,
{
    if i < fs.len() {
        assert(fs.take(i + 1).drop_last() =~= fs.take(i));
        lemma_infer_prefix_err(fs, mime_of, i + 1);
    } else {
        assert(fs.take(i) =~= fs);
    }
}

/// A text form part.
pub fn text_part(name: &'static str, value: String) -> (p: FormPart)
    ensures
        is_text_part(p, name@, value@),
{
    FormPart::Text { name, value }
}

// ---------------------------------------------------------------------------
// Files
// ---------------------------------------------------------------------------

/// A file to upload: a path read when the request is sent, or bytes held in
/// memory with their file name and MIME type.
#[derive(Clone, Debug)]
pub enum FilePart {
    Path(String),
    Bytes { file_name: String, mime: String, bytes: Vec<u8> },
}

impl FilePart {
    /// A copy of the file part.
    pub fn copy(&self) -> (r: Self)
        ensures
            file_view(r) == file_view(*self),
    {
        match self {
            FilePart::Path(p) => FilePart::Path(p.clone()),
            FilePart::Bytes { file_name, mime, bytes } => FilePart::Bytes {
                file_name: file_name.clone(),
                mime: mime.clone(),
                bytes: copy_range(bytes.as_slice(), 0, bytes.len()),
            },
        }
    }

    /// A file read from `path` when the request is sent.
    pub fn path(path: &str) -> (f: Self)
        ensures
            f matches FilePart::Path(p) && p@ == path@,
    {
        FilePart::Path(owned(path))
    }

    /// A file held in memory.
    pub fn bytes(file_name: &str, mime: &str, bytes: Vec<u8>) -> (f: Self)
        ensures
            f matches FilePart::Bytes { file_name: n, mime: m, bytes: b } && n@ == file_name@
                && m@ == mime@ && b@ == bytes@,
    {
        FilePart::Bytes { file_name: owned(file_name), mime: owned(mime), bytes }
    }

    /// The MIME type the file carries, if any: in-memory files carry one.
    pub fn mime(&self) -> (m: Option<String>)
        ensures
            opt_view(m) == file_mime(*self),
    {
        match self {
            FilePart::Path(_) => None,
            FilePart::Bytes { mime, .. } => Some(mime.clone()),
        }
    }

    /// The extension of the file name: the text after the last `.` of the
    /// last `/`-separated component, where that `.` is not the component's
    /// first character.
    pub fn extension(&self) -> (r: Result<String, Error>)
        ensures
            r matches Ok(e) ==> extension_of(file_name_of(*self)) == Some(e@),
            r is Err ==> extension_of(file_name_of(*self)) is None && r matches Err(Error::FileExtensionNotFound),
    {
        let name = match self {
            FilePart::Path(p) => p,
            FilePart::Bytes { file_name, .. } => file_name,
        };
        let cs = chars_of(name.as_str());
        let start = match last_index(cs.as_slice(), '/') {
            Some(i) => i + 1,
            None => 0,
        };
        let ghost comp = final_component(cs@);
        assert(cs@.subrange(start as int, cs@.len() as int) =~= comp);
        let comp_chars = copy_chars(cs.as_slice(), start, cs.len());
        match last_index(comp_chars.as_slice(), '.') {
            Some(i) => {
                if i > 0 {
                    assert(comp.subrange(i + 1, comp.len() as int) =~= comp.skip(i + 1));
                    Ok(string_from(comp_chars.as_slice(), i + 1, comp_chars.len()))
                } else {
                    Err(Error::FileExtensionNotFound)
                }
            },
            None => Err(Error::FileExtensionNotFound),
        }
    }
}

pub open spec fn file_mime(f: FilePart) -> Option<Seq<char>> {
    match f {
        FilePart::Path(_) => None,
        FilePart::Bytes { mime, .. } => Some(mime@),
    }
}

pub open spec fn file_name_of(f: FilePart) -> Seq<char> {
    match f {
        FilePart::Path(p) => p@,
        FilePart::Bytes { file_name, .. } => file_name@,
    }
}

/// The last position of `c` in `s`.
pub open spec fn last_index_spec(s: Seq<char>, c: char) -> Option<int>
    decreases s.len(),
{
    if s.len() == 0 {
        None
    } else if s.last() == c {
        Some(s.len() - 1)
    } else {
        last_index_spec(s.drop_last(), c)
    }
}

/// The part of a path after its last `/`.
pub open spec fn final_component(p: Seq<char>) -> Seq<char> {
    match last_index_spec(p, '/') {
        Some(i) => p.skip(i + 1),
        None => p,
    }
}

/// The extension of a file name, as `FilePart::extension` finds it.
pub open spec fn extension_of(p: Seq<char>) -> Option<Seq<char>> {
    let f = final_component(p);
    match last_index_spec(f, '.') {
        Some(i) => if i > 0 { Some(f.skip(i + 1)) } else { None },
        None => None,
    }
}

/// Text without `c` after a prefix leaves the last `c` where the prefix has
/// it.
proof fn lemma_last_index_append(a: Seq<char>, b: Seq<char>, c: char)
    requires
        !b.contains(c),
    ensures
        last_index_spec(a + b, c) == last_index_spec(a, c),
    decreases b.len(),
{
    if b.len() > 0 {
        assert((a + b).drop_last() =~= a + b.drop_last());
        assert((a + b).last() == b.last());
        assert(b.drop_last().contains(c) ==> b.contains(c)) by {
            if b.drop_last().contains(c) {
                let k = choose|k: int| 0 <= k < b.drop_last().len() && b.drop_last()[k] == c;
                assert(b[k] == c);
            }
        }
        assert(b.last() != c) by {
            assert(b[b.len() - 1] == b.last());
        }
        lemma_last_index_append(a, b.drop_last(), c);
    } else {
        assert(a + b =~= a);
    }
}

/// A file name `stem.e` whose parts hold no slash, and whose extension holds
/// no dot, is its own final component and has the extension `e`.
proof fn lemma_extension_of_file(stem: Seq<char>, e: Seq<char>)
    requires
        stem.len() > 0,
        !stem.contains('/'),
        !e.contains('.'),
        !e.contains('/'),
    ensures
        !(stem + seq!['.'] + e).contains('/'),
        final_component(stem + seq!['.'] + e) == stem + seq!['.'] + e,
        extension_of(stem + seq!['.'] + e) == Some(e),
{
    let f = stem + seq!['.'] + e;
    let tail = seq!['.'] + e;
    assert(f =~= stem + tail);
    assert(!tail.contains('/')) by {
        if tail.contains('/') {
            let k = choose|k: int| 0 <= k < tail.len() && tail[k] == '/';
            assert(k > 0);
            assert(e[k - 1] == '/');
        }
    }
    assert(!f.contains('/')) by {
        if f.contains('/') {
            let k = choose|k: int| 0 <= k < f.len() && f[k] == '/';
            if k < stem.len() {
                assert(stem[k] == '/');
            } else {
                assert(tail[k - stem.len()] == '/');
            }
        }
    }
    lemma_last_index_append(seq![], f, '/');
    assert(seq![] + f =~= f);
    assert(last_index_spec(Seq::<char>::empty(), '/') is None);
    assert(final_component(f) == f);
    lemma_last_index_append(stem.push('.'), e, '.');
    assert(stem.push('.') + e =~= f);
    assert(last_index_spec(stem.push('.'), '.') == Some(stem.len() as int)) by {
        assert(stem.push('.').last() == '.');
    }
    assert(f.skip(stem.len() as int + 1) =~= e);
}

/// The extension of a file name is the text after the last dot of its final
/// path component, when a non-empty stem comes before that dot: a file
/// `stem.e`, alone or under any directory, has the extension `e` whenever
/// `e` holds no dot and no slash and the stem holds no slash.
pub proof fn lemma_extension_of_parts(dir: Seq<char>, stem: Seq<char>, e: Seq<char>)
    requires
        stem.len() > 0,
        !stem.contains('/'),
        !e.contains('.'),
        !e.contains('/'),
    ensures
        extension_of(stem + seq!['.'] + e) == Some(e),
        extension_of(dir + seq!['/'] + stem + seq!['.'] + e) == Some(e),
{
    lemma_extension_of_file(stem, e);
    let f = stem + seq!['.'] + e;
    let p = dir + seq!['/'] + stem + seq!['.'] + e;
    let d1 = dir.push('/');
    assert(p =~= d1 + f);
    lemma_last_index_append(d1, f, '/');
    assert(last_index_spec(d1, '/') == Some(dir.len() as int)) by {
        assert(d1.last() == '/');
    }
    assert(p.skip(dir.len() as int + 1) =~= f);
    assert(final_component(p) == f);
}

/// The last position of `c` in `v`.
pub fn last_index(v: &[char], c: char) -> (r: Option<usize>)
    ensures
        r matches Some(i) ==> last_index_spec(v@, c) == Some(i as int) && i < v.len(),
        r is None ==> last_index_spec(v@, c) is None,
{
    let mut j = v.len();
    assert(v@.subrange(0, v@.len() as int) =~= v@);
    while j > 0
        invariant
            0 <= j <= v@.len(),
            last_index_spec(v@, c) == last_index_spec(v@.subrange(0, j as int), c),
        decreases j,
    {
        if v[j - 1] == c {
            return Some(j - 1);
        }
        assert(v@.subrange(0, j as int).drop_last() =~= v@.subrange(0, j - 1));
        j = j - 1;
    }
    None
}

/// Copies `v[from..to]` into a new vector.
pub fn copy_chars(v: &[char], from: usize, to: usize) -> (r: Vec<char>)
    requires
        from <= to <= v@.len(),
    ensures
        r@ == v@.subrange(from as int, to as int),
{
    let mut r: Vec<char> = Vec::new();
    let mut i = from;
    while i < to
        invariant
            from <= i <= to <= v@.len(),
            r@ == v@.subrange(from as int, i as int),
        decreases to - i,
    {
        r.push(v[i]);
        assert(v@.subrange(from as int, i + 1) =~= v@.subrange(from as int, i as int).push(v@[i as int]));
        i = i + 1;
    }
    r
}

// ---------------------------------------------------------------------------
// Output formats and dictionary locators
// ---------------------------------------------------------------------------

/// An audio output format, written `codec_sample_rate[_bitrate]`, such as
/// `mp3_44100_128`. Formats the crate does not name are kept as given.
#[allow(non_camel_case_types)]
#[derive(Clone, Debug)]
pub enum OutputFormat {
    Mp3_22050Hz32kbps,
    Mp3_24000Hz48kbps,
    Mp3_44100Hz32kbps,
    Mp3_44100Hz64kbps,
    Mp3_44100Hz96kbps,
    Mp3_44100Hz128kbps,
    Mp3_44100Hz192kbps,
    Pcm8000Hz,
    Pcm16000Hz,
    Pcm22050Hz,
    Pcm24000Hz,
    Pcm44100Hz,
    Pcm48000Hz,
    MuLaw8000Hz,
    ALaw8000Hz,
    Opus48000Hz32kbps,
    Opus48000Hz64kbps,
    Opus48000Hz96kbps,
    Opus48000Hz128kbps,
    Opus48000Hz192kbps,
    Custom(String),
}

/// The wire name of an output format.
pub open spec fn format_name(f: OutputFormat) -> Seq<char> {
    match f {
        OutputFormat::Mp3_22050Hz32kbps => "mp3_22050_32"@,
        OutputFormat::Mp3_24000Hz48kbps => "mp3_24000_48"@,
        OutputFormat::Mp3_44100Hz32kbps => "mp3_44100_32"@,
        OutputFormat::Mp3_44100Hz64kbps => "mp3_44100_64"@,
        OutputFormat::Mp3_44100Hz96kbps => "mp3_44100_96"@,
        OutputFormat::Mp3_44100Hz128kbps => "mp3_44100_128"@,
        OutputFormat::Mp3_44100Hz192kbps => "mp3_44100_192"@,
        OutputFormat::Pcm8000Hz => "pcm_8000"@,
        OutputFormat::Pcm16000Hz => "pcm_16000"@,
        OutputFormat::Pcm22050Hz => "pcm_22050"@,
        OutputFormat::Pcm24000Hz => "pcm_24000"@,
        OutputFormat::Pcm44100Hz => "pcm_44100"@,
        OutputFormat::Pcm48000Hz => "pcm_48000"@,
        OutputFormat::MuLaw8000Hz => "ulaw_8000"@,
        OutputFormat::ALaw8000Hz => "alaw_8000"@,
        OutputFormat::Opus48000Hz32kbps => "opus_48000_32"@,
        OutputFormat::Opus48000Hz64kbps => "opus_48000_64"@,
        OutputFormat::Opus48000Hz96kbps => "opus_48000_96"@,
        OutputFormat::Opus48000Hz128kbps => "opus_48000_128"@,
        OutputFormat::Opus48000Hz192kbps => "opus_48000_192"@,
        OutputFormat::Custom(v) => v@,
    }
}

/// The name of each output format.
pub proof fn lemma_format_name_table()
    ensures
        format_name(OutputFormat::Mp3_22050Hz32kbps) == "mp3_22050_32"@,
        format_name(OutputFormat::Mp3_24000Hz48kbps) == "mp3_24000_48"@,
        format_name(OutputFormat::Mp3_44100Hz32kbps) == "mp3_44100_32"@,
        format_name(OutputFormat::Mp3_44100Hz64kbps) == "mp3_44100_64"@,
        format_name(OutputFormat::Mp3_44100Hz96kbps) == "mp3_44100_96"@,
        format_name(OutputFormat::Mp3_44100Hz128kbps) == "mp3_44100_128"@,
        format_name(OutputFormat::Mp3_44100Hz192kbps) == "mp3_44100_192"@,
        format_name(OutputFormat::Pcm8000Hz) == "pcm_8000"@,
        format_name(OutputFormat::Pcm16000Hz) == "pcm_16000"@,
        format_name(OutputFormat::Pcm22050Hz) == "pcm_22050"@,
        format_name(OutputFormat::Pcm24000Hz) == "pcm_24000"@,
        format_name(OutputFormat::Pcm44100Hz) == "pcm_44100"@,
        format_name(OutputFormat::Pcm48000Hz) == "pcm_48000"@,
        format_name(OutputFormat::MuLaw8000Hz) == "ulaw_8000"@,
        format_name(OutputFormat::ALaw8000Hz) == "alaw_8000"@,
        format_name(OutputFormat::Opus48000Hz32kbps) == "opus_48000_32"@,
        format_name(OutputFormat::Opus48000Hz64kbps) == "opus_48000_64"@,
        format_name(OutputFormat::Opus48000Hz96kbps) == "opus_48000_96"@,
        format_name(OutputFormat::Opus48000Hz128kbps) == "opus_48000_128"@,
        format_name(OutputFormat::Opus48000Hz192kbps) == "opus_48000_192"@,
        forall|s: String| format_name(OutputFormat::Custom(s)) == s@,
{
}

impl OutputFormat {
    /// An output format from its wire name.
    pub fn custom(value: &str) -> (f: Self)
        ensures
            f matches OutputFormat::Custom(v) && v@ == value@,
    {
        OutputFormat::Custom(owned(value))
    }

    /// The wire name.
    pub fn as_str(&self) -> (s: &str)
        ensures
            s@ == format_name(*self),
    {
        match self {
            OutputFormat::Mp3_22050Hz32kbps => "mp3_22050_32",
            OutputFormat::Mp3_24000Hz48kbps => "mp3_24000_48",
            OutputFormat::Mp3_44100Hz32kbps => "mp3_44100_32",
            OutputFormat::Mp3_44100Hz64kbps => "mp3_44100_64",
            OutputFormat::Mp3_44100Hz96kbps => "mp3_44100_96",
            OutputFormat::Mp3_44100Hz128kbps => "mp3_44100_128",
            OutputFormat::Mp3_44100Hz192kbps => "mp3_44100_192",
            OutputFormat::Pcm8000Hz => "pcm_8000",
            OutputFormat::Pcm16000Hz => "pcm_16000",
            OutputFormat::Pcm22050Hz => "pcm_22050",
            OutputFormat::Pcm24000Hz => "pcm_24000",
            OutputFormat::Pcm44100Hz => "pcm_44100",
            OutputFormat::Pcm48000Hz => "pcm_48000",
            OutputFormat::MuLaw8000Hz => "ulaw_8000",
            OutputFormat::ALaw8000Hz => "alaw_8000",
            OutputFormat::Opus48000Hz32kbps => "opus_48000_32",
            OutputFormat::Opus48000Hz64kbps => "opus_48000_64",
            OutputFormat::Opus48000Hz96kbps => "opus_48000_96",
            OutputFormat::Opus48000Hz128kbps => "opus_48000_128",
            OutputFormat::Opus48000Hz192kbps => "opus_48000_192",
            OutputFormat::Custom(v) => v.as_str(),
        }
    }

    /// The wire name, owned.
    pub fn to_string(&self) -> (s: String)
        ensures
            s@ == format_name(*self),
    {
        owned(self.as_str())
    }
}

/// A pronunciation dictionary and the version of it to apply.
#[derive(Clone, Debug)]
pub struct DictionaryLocator {
    pub pronunciation_dictionary_id: String,
    pub version_id: String,
}

impl DictionaryLocator {
    pub fn new(id: &str, version_id: &str) -> (l: Self)
        ensures
            l.pronunciation_dictionary_id@ == id@,
            l.version_id@ == version_id@,
    {
        DictionaryLocator { pronunciation_dictionary_id: owned(id), version_id: owned(version_id) }
    }

    /// A copy of the locator.
    pub fn copy(&self) -> (r: Self)
        ensures
            r == *self,
    {
        DictionaryLocator {
            pronunciation_dictionary_id: self.pronunciation_dictionary_id.clone(),
            version_id: self.version_id.clone(),
        }
    }
}

// ---------------------------------------------------------------------------
// MIME types inferred from file names
// ---------------------------------------------------------------------------

/// The audio MIME type of a file extension, compared case-insensitively: the
/// audio entries of the transcript file-type table.
pub open spec fn audio_mime_spec(ext: Seq<char>) -> Option<Seq<char>> {
    match file_type_spec(lowercase(ext), false) {
        Some((false, s)) => Some("audio/"@ + s),
        _ => None,
    }
}

/// The audio MIME type of a file extension.
pub fn audio_mime_from_extension(ext: &str) -> (r: Result<String, Error>)
    ensures
        match audio_mime_spec(ext@) {
            Some(m) => r matches Ok(s) && s@ == m,
            None => r matches Err(Error::FileExtensionNotSupported),
        },
{
    match TranscriptFileType::from_extension(ext, false) {
        Ok(TranscriptFileType::Audio(s)) => Ok(concat2("audio/", s)),
        _ => Err(Error::FileExtensionNotSupported),
    }
}

/// The video MIME type of a lowercase file extension.
pub open spec fn video_mime_spec(e: Seq<char>) -> Option<Seq<char>> {
    if e == "mp4"@ || e == "m4v"@ {
        Some("video/mp4"@)
    } else if e == "webm"@ {
        Some("video/webm"@)
    } else if e == "mov"@ {
        Some("video/quicktime"@)
    } else if e == "mkv"@ {
        Some("video/x-matroska"@)
    } else if e == "avi"@ {
        Some("video/x-msvideo"@)
    } else {
        None
    }
}

/// The video extensions and their MIME types: `mp4` and `m4v` are
/// `video/mp4`, and `webm`, `mov`, `mkv` and `avi` have their own.
pub proof fn lemma_video_mime_table()
    ensures
        video_mime_spec("mp4"@) == Some("video/mp4"@),
        video_mime_spec("m4v"@) == Some("video/mp4"@),
        video_mime_spec("webm"@) == Some("video/webm"@),
        video_mime_spec("mov"@) == Some("video/quicktime"@),
        video_mime_spec("mkv"@) == Some("video/x-matroska"@),
        video_mime_spec("avi"@) == Some("video/x-msvideo"@),
{
    reveal_strlit("mp4");
    reveal_strlit("m4v");
    reveal_strlit("webm");
    reveal_strlit("mov");
    reveal_strlit("mkv");
    reveal_strlit("avi");
    assert("m4v"@[1] != "mp4"@[1]);
    assert("webm"@.len() == 4);
    assert("mp4"@.len() == 3);
    assert("mov"@[1] != "mp4"@[1]);
    assert("mov"@[1] != "m4v"@[1]);
    assert("mkv"@[1] != "mp4"@[1]);
    assert("mkv"@[1] != "m4v"@[1]);
    assert("mkv"@[1] != "mov"@[1]);
    assert("avi"@[0] != "mp4"@[0]);
    assert("avi"@[0] != "m4v"@[0]);
    assert("avi"@[0] != "mov"@[0]);
    assert("avi"@[0] != "mkv"@[0]);
}

/// The MIME type to send with a file: `None` when the file carries its own;
/// otherwise the one `mime_of` gives its extension.
pub open spec fn inferred_mime_spec(
    f: FilePart,
    mime_of: spec_fn(Seq<char>) -> Option<Seq<char>>,
) -> Result<Option<Seq<char>>, Error> {
    match file_mime(f) {
        Some(_) => Ok(None),
        None => match extension_of(file_name_of(f)) {
            None => Err(Error::FileExtensionNotFound),
            Some(e) => match mime_of(e) {
                Some(m) => Ok(Some(m)),
                None => Err(Error::FileExtensionNotSupported),
            },
        },
    }
}

/// The MIME table for videos (`true`) or audio (`false`).
pub open spec fn mimes_for(video: bool) -> spec_fn(Seq<char>) -> Option<Seq<char>> {
    if video {
        |e: Seq<char>| video_mime_spec(lowercase(e))
    } else {
        |e: Seq<char>| audio_mime_spec(e)
    }
}

/// Whether a result agrees with an expected inferred MIME type.
pub open spec fn mime_result_matches(r: Result<Option<String>, Error>, expected: Result<Option<Seq<char>>, Error>) -> bool {
    match expected {
        Ok(None) => r matches Ok(None),
        Ok(Some(m)) => r matches Ok(Some(s)) && s@ == m,
        Err(Error::FileExtensionNotFound) => r matches Err(Error::FileExtensionNotFound),
        Err(_) => r matches Err(Error::FileExtensionNotSupported),
    }
}

/// The audio MIME type to send with a file that does not carry one.
pub fn inferred_audio_mime(file: &FilePart) -> (r: Result<Option<String>, Error>)
    ensures
        mime_result_matches(r, inferred_mime_spec(*file, mimes_for(false))),
{
    if file.mime().is_some() {
        return Ok(None);
    }
    let ext = file.extension()?;
    let m = audio_mime_from_extension(ext.as_str())?;
    Ok(Some(m))
}

/// The video MIME type to send with a file that does not carry one; the
/// extension is compared case-insensitively.
pub fn inferred_video_mime(file: &FilePart) -> (r: Result<Option<String>, Error>)
    ensures
        mime_result_matches(r, inferred_mime_spec(*file, mimes_for(true))),
{
    if file.mime().is_some() {
        return Ok(None);
    }
    let ext = file.extension()?;
    let lower = to_lowercase(ext.as_str());
    let e = lower.as_str();
    let m = if str_eq(e, "mp4") || str_eq(e, "m4v") {
        "video/mp4"
    } else if str_eq(e, "webm") {
        "video/webm"
    } else if str_eq(e, "mov") {
        "video/quicktime"
    } else if str_eq(e, "mkv") {
        "video/x-matroska"
    } else if str_eq(e, "avi") {
        "video/x-msvideo"
    } else {
        return Err(Error::FileExtensionNotSupported);
    };
    Ok(Some(owned(m)))
}

/// Appends one file part named `name` for each file, in order, with the MIME
/// type inferred from its name (the video table when `video`, else the audio
/// one). The first file whose type cannot be inferred gives the error.
pub fn append_file_parts(
    parts: &mut Vec<FormPart>,
    name: &'static str,
    files: &Vec<FilePart>,
    video: bool,
) -> (r: Result<(), Error>)
    ensures
        match infer_all(files@, mimes_for(video)) {
            Err(e) => r == Err::<(), Error>(e),
            Ok(ms) => {
                &&& r is Ok
                &&& final(parts)@.len() == old(parts)@.len() + files@.len()
                &&& final(parts)@.take(old(parts)@.len() as int) == old(parts)@
                &&& forall|k: int|
                    0 <= k < files@.len() ==> is_file_part(
                        #[trigger] final(parts)@[old(parts)@.len() + k],
                        name@,
                        files@[k],
                        ms[k],
                    )
            },
        },
{
    let ghost start = parts@;
    let ghost mut ms: Seq<Option<Seq<char>>> = seq![];
    let mut i: usize = 0;
    assert(files@.take(0) =~= seq![]);
    while i < files.len()
        invariant
            0 <= i <= files@.len(),
            infer_all(files@.take(i as int), mimes_for(video)) == Ok::<Seq<Option<Seq<char>>>, Error>(ms),
            ms.len() == i,
            parts@.len() == start.len() + i,
            parts@.take(start.len() as int) == start,
            forall|k: int|
                0 <= k < i ==> is_file_part(#[trigger] parts@[start.len() + k], name@, files@[k], ms[k]),
        decreases files.len() - i,
    {
        let f = &files[i];
        let inferred = if video {
            inferred_video_mime(f)
        } else {
            inferred_audio_mime(f)
        };
        assert(files@.take(i + 1).drop_last() =~= files@.take(i as int));
        assert(files@.take(i + 1).last() == files@[i as int]);
        match inferred {
            Err(e) => {
                proof {
                    lemma_infer_prefix_err(files@, mimes_for(video), i + 1);
                }
                return Err(e);
            },
            Ok(m) => {
                let ghost before = parts@;
                parts.push(FormPart::File { name, file: f.copy(), mime: m });
                proof {
                    ms = ms.push(opt_view(m));
                    assert(parts@.take(start.len() as int) =~= before.take(start.len() as int));
                    assert forall|k: int| 0 <= k < i + 1 implies is_file_part(
                        #[trigger] parts@[start.len() + k],
                        name@,
                        files@[k],
                        ms[k],
                    ) by {
                        if k < i {
                            assert(parts@[start.len() + k] == before[start.len() + k]);
                        }
                    }
                }
            },
        }
        i = i + 1;
    }
    assert(files@.take(files@.len() as int) =~= files@);
    Ok(())
}

} // verus!

verus! {

/// The strings written as JSON strings, separated by commas.
pub open spec fn json_strings_joined(v: Seq<Seq<char>>) -> Seq<char>
    decreases v.len(),
{
    if v.len() == 0 {
        seq![]
    } else if v.len() == 1 {
        crate::json::json_quoted(v[0])
    } else {
        json_strings_joined(v.drop_last()) + ","@ + crate::json::json_quoted(v.last())
    }
}

/// What `serde_json::to_string` writes for a list of strings: the JSON
/// strings between square brackets, separated by commas, with no spaces.
pub open spec fn json_string_list(v: Seq<Seq<char>>) -> Seq<char> {
    "["@ + json_strings_joined(v) + "]"@
}

/// `serde_json::to_string` on a list of strings. Serialising fails only when a `Serialize` impl fails or a map
/// has keys that are not strings, and neither can happen for a list of
/// strings, so the call always gives the text.
#[verifier::external_body]
pub(crate) fn json_of_strings(v: &Vec<String>) -> (r: String)
    ensures
        r@ == json_string_list(crate::text::string_views(v@)),
{
    serde_json::to_string(v).expect("a list of strings always serializes")
}

} // verus!
