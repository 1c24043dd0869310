//! The text-to-dialogue endpoints: several voices reading a script.
use vstd::prelude::*;

use crate::endpoints::ElevenLabsEndpoint;
use crate::shared::{format_name, 
    clone_query, opt_query_view, push_query, query_view, HttpMethod, OutputFormat, QueryValues,
};
use crate::endpoints::genai::tts::Normalization;
use crate::shared::DictionaryLocator;
use crate::text::{append_str, bool_text, bool_to_string, concat_all, owned, string_views};

verus! {

broadcast use vstd::string::group_string_axioms;

/// Turns a script into dialogue audio.
#[derive(Clone, Debug)]
pub struct TextToDialogue {
    pub body: TextToDialogueBody,
    pub query: Option<TextToDialogueQuery>,
}

impl TextToDialogue {
    pub fn new(body: TextToDialogueBody) -> (r: Self)
        ensures
            r.body == body,
            r.query is None,
    {
        TextToDialogue { body, query: None }
    }

    pub fn with_query(self, query: TextToDialogueQuery) -> (r: Self)
        ensures
            r.query == Some(query),
            r == (Self { query: r.query, ..self }),
    {
        Self { query: Some(query), ..self }
    }
}

impl ElevenLabsEndpoint for TextToDialogue {
    fn path(&self) -> (p: &'static str)
        ensures
            p@ == "/v1/text-to-dialogue"@,
    {
        "/v1/text-to-dialogue"
    }

    fn method(&self) -> (m: HttpMethod)
        ensures
            m == HttpMethod::Post,
    {
        HttpMethod::Post
    }

    fn query_params(&self) -> (r: Option<QueryValues>)
        ensures
            opt_query_view(r) == match self.query {
                Some(q) => Some(query_view(q.params@)),
                None => None::<Seq<(Seq<char>, Seq<char>)>>,
            },
    {
        match &self.query {
            Some(q) => Some(clone_query(&q.params)),
            None => None,
        }
    }

    fn path_params(&self) -> (r: Vec<(&'static str, String)>)
        ensures
            r@.len() == 0,
    {
        Vec::new()
    }
}

/// Streams dialogue audio.
#[derive(Clone, Debug)]
pub struct TextToDialogueStream {
    pub body: TextToDialogueBody,
    pub query: Option<TextToDialogueQuery>,
}

impl TextToDialogueStream {
    pub fn new(body: TextToDialogueBody) -> (r: Self)
        ensures
            r.body == body,
            r.query is None,
    {
        TextToDialogueStream { body, query: None }
    }

    pub fn with_query(self, query: TextToDialogueQuery) -> (r: Self)
        ensures
            r.query == Some(query),
            r == (Self { query: r.query, ..self }),
    {
        Self { query: Some(query), ..self }
    }
}

impl ElevenLabsEndpoint for TextToDialogueStream {
    fn path(&self) -> (p: &'static str)
        ensures
            p@ == "/v1/text-to-dialogue/stream"@,
    {
        "/v1/text-to-dialogue/stream"
    }

    fn method(&self) -> (m: HttpMethod)
        ensures
            m == HttpMethod::Post,
    {
        HttpMethod::Post
    }

    fn query_params(&self) -> (r: Option<QueryValues>)
        ensures
            opt_query_view(r) == match self.query {
                Some(q) => Some(query_view(q.params@)),
                None => None::<Seq<(Seq<char>, Seq<char>)>>,
            },
    {
        match &self.query {
            Some(q) => Some(clone_query(&q.params)),
            None => None,
        }
    }

    fn path_params(&self) -> (r: Vec<(&'static str, String)>)
        ensures
            r@.len() == 0,
    {
        Vec::new()
    }
}

/// Dialogue audio with character timing.
#[derive(Clone, Debug)]
pub struct TextToDialogueWithTimestamps {
    pub body: TextToDialogueBody,
    pub query: Option<TextToDialogueQuery>,
}

impl TextToDialogueWithTimestamps {
    pub fn new(body: TextToDialogueBody) -> (r: Self)
        ensures
            r.body == body,
            r.query is None,
    {
        TextToDialogueWithTimestamps { body, query: None }
    }

    pub fn with_query(self, query: TextToDialogueQuery) -> (r: Self)
        ensures
            r.query == Some(query),
            r == (Self { query: r.query, ..self }),
    {
        Self { query: Some(query), ..self }
    }
}

impl ElevenLabsEndpoint for TextToDialogueWithTimestamps {
    fn path(&self) -> (p: &'static str)
        ensures
            p@ == "/v1/text-to-dialogue/with-timestamps"@,
    {
        "/v1/text-to-dialogue/with-timestamps"
    }

    fn method(&self) -> (m: HttpMethod)
        ensures
            m == HttpMethod::Post,
    {
        HttpMethod::Post
    }

    fn query_params(&self) -> (r: Option<QueryValues>)
        ensures
            opt_query_view(r) == match self.query {
                Some(q) => Some(query_view(q.params@)),
                None => None::<Seq<(Seq<char>, Seq<char>)>>,
            },
    {
        match &self.query {
            Some(q) => Some(clone_query(&q.params)),
            None => None,
        }
    }

    fn path_params(&self) -> (r: Vec<(&'static str, String)>)
        ensures
            r@.len() == 0,
    {
        Vec::new()
    }
}

/// Streams dialogue audio with character timing.
#[derive(Clone, Debug)]
pub struct TextToDialogueStreamWithTimestamps {
    pub body: TextToDialogueBody,
    pub query: Option<TextToDialogueQuery>,
}

impl TextToDialogueStreamWithTimestamps {
    pub fn new(body: TextToDialogueBody) -> (r: Self)
        ensures
            r.body == body,
            r.query is None,
    {
        TextToDialogueStreamWithTimestamps { body, query: None }
    }

    pub fn with_query(self, query: TextToDialogueQuery) -> (r: Self)
        ensures
            r.query == Some(query),
            r == (Self { query: r.query, ..self }),
    {
        Self { query: Some(query), ..self }
    }
}

impl ElevenLabsEndpoint for TextToDialogueStreamWithTimestamps {
    fn path(&self) -> (p: &'static str)
        ensures
            p@ == "/v1/text-to-dialogue/stream/with-timestamps"@,
    {
        "/v1/text-to-dialogue/stream/with-timestamps"
    }

    fn method(&self) -> (m: HttpMethod)
        ensures
            m == HttpMethod::Post,
    {
        HttpMethod::Post
    }

    fn query_params(&self) -> (r: Option<QueryValues>)
        ensures
            opt_query_view(r) == match self.query {
                Some(q) => Some(query_view(q.params@)),
                None => None::<Seq<(Seq<char>, Seq<char>)>>,
            },
    {
        match &self.query {
            Some(q) => Some(clone_query(&q.params)),
            None => None,
        }
    }

    fn path_params(&self) -> (r: Vec<(&'static str, String)>)
        ensures
            r@.len() == 0,
    {
        Vec::new()
    }
}

/// One line of the script and the voice that reads it.
#[derive(Clone, Debug)]
pub struct DialogueInput {
    pub text: String,
    pub voice_id: String,
}

impl DialogueInput {
    pub fn new(text: &str, voice_id: &str) -> (r: Self)
        ensures
            r.text@ == text@,
            r.voice_id@ == voice_id@,
    {
        DialogueInput { text: owned(text), voice_id: owned(voice_id) }
    }
}

/// The body of a text-to-dialogue request.
#[derive(Clone, Debug)]
pub struct TextToDialogueBody {
    pub inputs: Vec<DialogueInput>,
    pub model_id: Option<String>,
    /// The voice settings, as the JSON object the request carries.
    pub settings: Option<String>,
    pub pronunciation_dictionary_locators: Option<Vec<DictionaryLocator>>,
    pub seed: Option<u64>,
    pub language_code: Option<String>,
    pub apply_text_normalization: Option<Normalization>,
}

impl TextToDialogueBody {
    pub fn new(inputs: Vec<DialogueInput>) -> (r: Self)
        ensures
            r.inputs == inputs,
            r.model_id is None,
            r.settings is None,
            r.pronunciation_dictionary_locators is None,
            r.seed is None,
            r.language_code is None,
            r.apply_text_normalization is None,
    {
        TextToDialogueBody {
            inputs,
            model_id: None,
            settings: None,
            pronunciation_dictionary_locators: None,
            seed: None,
            language_code: None,
            apply_text_normalization: None,
        }
    }

    pub fn with_model_id(self, model_id: &str) -> (r: Self)
        ensures
            r.model_id matches Some(s) && s@ == model_id@,
            r == (Self { model_id: r.model_id, ..self }),
    {
        Self { model_id: Some(owned(model_id)), ..self }
    }
    /// Sets the voice settings, given as the JSON object the request carries.
    pub fn with_settings(self, settings_json: &str) -> (r: Self)
        ensures
            r.settings matches Some(v) && v@ == settings_json@,
            r == (Self { settings: r.settings, ..self }),
    {
        Self { settings: Some(owned(settings_json)), ..self }
    }
    pub fn with_pronunciation_dictionary_locators(self, locators: Vec<DictionaryLocator>) -> (r: Self)
        ensures
            r.pronunciation_dictionary_locators == Some(locators),
            r == (Self { pronunciation_dictionary_locators: r.pronunciation_dictionary_locators, ..self }),
    {
        Self { pronunciation_dictionary_locators: Some(locators), ..self }
    }
    pub fn with_seed(self, seed: u64) -> (r: Self)
        ensures
            r.seed == Some(seed),
            r == (Self { seed: r.seed, ..self }),
    {
        Self { seed: Some(seed), ..self }
    }
    pub fn with_language_code(self, language_code: &str) -> (r: Self)
        ensures
            r.language_code matches Some(s) && s@ == language_code@,
            r == (Self { language_code: r.language_code, ..self }),
    {
        Self { language_code: Some(owned(language_code)), ..self }
    }
    pub fn with_text_normalization(self, normalization: Normalization) -> (r: Self)
        ensures
            r.apply_text_normalization == Some(normalization),
            r == (Self { apply_text_normalization: r.apply_text_normalization, ..self }),
    {
        Self { apply_text_normalization: Some(normalization), ..self }
    }
}

/// Query parameters of the text-to-dialogue endpoints.
#[derive(Clone, Debug)]
pub struct TextToDialogueQuery {
    pub params: QueryValues,
}

impl Default for TextToDialogueQuery {
    fn default() -> (r: Self)
        ensures
            r.params@.len() == 0,
    {
        TextToDialogueQuery { params: Vec::new() }
    }
}

impl TextToDialogueQuery {
    pub fn with_output_format(self, output_format: OutputFormat) -> (r: Self)
        ensures
            query_view(r.params@) == query_view(self.params@).push(("output_format"@, format_name(output_format))),
    {
        let mut s = self;
        push_query(&mut s.params, "output_format", output_format.to_string());
        s
    }
    pub fn with_logging(self, enable_logging: bool) -> (r: Self)
        ensures
            query_view(r.params@) == query_view(self.params@).push(("enable_logging"@, bool_text(enable_logging))),
    {
        let mut s = self;
        push_query(&mut s.params, "enable_logging", bool_to_string(enable_logging));
        s
    }
}

/// The character range of a voice segment in the alignment.
#[derive(Clone, Copy, Debug, PartialEq, Eq, Structural)]
pub struct SegmentSpan {
    pub character_start_index: usize,
    pub character_end_index: usize,
}

/// The smallest start index of the segments; zero when there are none.
pub open spec fn min_start(spans: Seq<SegmentSpan>) -> int
    decreases spans.len(),
{
    if spans.len() == 0 {
        0
    } else if spans.len() == 1 {
        spans[0].character_start_index as int
    } else {
        let rest = min_start(spans.drop_last());
        let last = spans.last().character_start_index as int;
        if last < rest {
            last
        } else {
            rest
        }
    }
}

/// The offset of a response is the smallest start among its segments: no
/// segment starts before it and some segment starts at it; it is zero when
/// there are no segments.
pub proof fn lemma_min_start(spans: Seq<SegmentSpan>)
    ensures
        spans.len() == 0 ==> min_start(spans) == 0,
        forall|i: int| 0 <= i < spans.len() ==> min_start(spans) <= #[trigger] spans[i].character_start_index,
        spans.len() > 0 ==> exists|i: int| 0 <= i < spans.len() && min_start(spans) == #[trigger] spans[i].character_start_index,
    decreases spans.len(),
{
    if spans.len() > 1 {
        let init = spans.drop_last();
        lemma_min_start(init);
        assert forall|i: int| 0 <= i < spans.len() implies min_start(spans) <= #[trigger] spans[i].character_start_index by {
            if i < spans.len() - 1 {
                assert(init[i] == spans[i]);
            }
        }
        if min_start(spans) == spans.last().character_start_index {
            assert(spans[spans.len() - 1] == spans.last());
        } else {
            let j = choose|j: int| 0 <= j < init.len() && min_start(init) == #[trigger] init[j].character_start_index;
            assert(init[j] == spans[j]);
        }
    } else if spans.len() == 1 {
        assert(min_start(spans) == spans[0].character_start_index);
    }
}

/// `a - b`, or zero when `b` is larger.
pub open spec fn saturating_sub(a: usize, b: usize) -> int {
    if a >= b {
        a - b
    } else {
        0
    }
}

/// The text of a segment: the characters of the alignment from its start to
/// its end, both counted from the first segment's start, joined; empty when
/// there is no alignment or the range does not lie inside it.
pub open spec fn segment_text_spec(
    characters: Option<Seq<Seq<char>>>,
    spans: Seq<SegmentSpan>,
    segment: SegmentSpan,
) -> Seq<char> {
    let base = min_start(spans);
    let start = saturating_sub(segment.character_start_index, base as usize);
    let end = saturating_sub(segment.character_end_index, base as usize);
    match characters {
        Some(c) => if start <= end && end <= c.len() {
            concat_all(c.subrange(start, end))
        } else {
            seq![]
        },
        None => seq![],
    }
}

/// The smallest start index of the segments; zero when there are none.
pub fn character_offset(spans: &[SegmentSpan]) -> (r: usize)
    ensures
        r == min_start(spans@),
{
    if spans.len() == 0 {
        return 0;
    }
    let mut m = spans[0].character_start_index;
    let mut i: usize = 1;
    assert(spans@.subrange(0, 1).drop_last().len() == 0);
    while i < spans.len()
        invariant
            1 <= i <= spans@.len(),
            m == min_start(spans@.subrange(0, i as int)),
        decreases spans.len() - i,
    {
        assert(spans@.subrange(0, i + 1).drop_last() =~= spans@.subrange(0, i as int));
        let s = spans[i].character_start_index;
        if s < m {
            m = s;
        }
        i = i + 1;
    }
    assert(spans@.subrange(0, spans@.len() as int) =~= spans@);
    m
}

/// The text of a voice segment, as `segment_text_spec` says. `characters`
/// are those of the alignment, or else of the normalized alignment.
pub fn segment_text(characters: Option<&Vec<String>>, spans: &[SegmentSpan], segment: &SegmentSpan) -> (r: String)
    ensures
        r@ == segment_text_spec(
            match characters {
                Some(c) => Some(string_views(c@)),
                None => None,
            },
            spans@,
            *segment,
        ),
{
    let base = character_offset(spans);
    let start = segment.character_start_index.saturating_sub(base);
    let end = segment.character_end_index.saturating_sub(base);
    let mut r = String::new();
    match characters {
        Some(c) => {
            if start <= end && end <= c.len() {
                let ghost cs = string_views(c@);
                let mut i = start;
                assert(cs.subrange(start as int, start as int) =~= seq![]);
                while i < end
                    invariant
                        start <= i <= end <= c@.len(),
                        cs == string_views(c@),
                        r@ == concat_all(cs.subrange(start as int, i as int)),
                    decreases end - i,
                {
                    assert(cs.subrange(start as int, i + 1).drop_last() =~= cs.subrange(start as int, i as int));
                    append_str(&mut r, c[i].as_str());
                    i = i + 1;
                }
            }
        },
        None => {},
    }
    r
}

/// The characters a response's segments are read from: those of the
/// alignment, or else those of the normalized alignment.
pub open spec fn chosen_characters(alignment: Option<Seq<String>>, normalized_alignment: Option<Seq<String>>) -> Option<Seq<Seq<char>>> {
    match alignment {
        Some(c) => Some(string_views(c)),
        None => match normalized_alignment {
            Some(c) => Some(string_views(c)),
            None => None,
        },
    }
}

/// The text of a voice segment, read from the alignment's characters when
/// the response has them and from the normalized alignment's otherwise.
pub fn segment_text_of(
    alignment: Option<&Vec<String>>,
    normalized_alignment: Option<&Vec<String>>,
    spans: &[SegmentSpan],
    segment: &SegmentSpan,
) -> (r: String)
    ensures
        r@ == segment_text_spec(
            chosen_characters(
                match alignment { Some(c) => Some(c@), None => None },
                match normalized_alignment { Some(c) => Some(c@), None => None },
            ),
            spans@,
            *segment,
        ),
{
    let characters = match alignment {
        Some(c) => Some(c),
        None => normalized_alignment,
    };
    segment_text(characters, spans, segment)
}

} // verus!
