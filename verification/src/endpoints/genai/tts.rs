//! The text-to-speech endpoints: single requests, streams, timestamps, and
//! the single- and multi-context WebSocket protocols.
use vstd::prelude::*;

use crate::bytes::{base64_decode, base64_decoding};
use crate::endpoints::genai::speech_to_text::WebSocketAuth;
use crate::endpoints::ElevenLabsEndpoint;
use crate::error::Error;
use crate::shared::{format_name, 
    clone_query, opt_query_view, push_query, query_view, DictionaryLocator, HttpMethod,
    OutputFormat, QueryValues,
};
use crate::text::{
    bool_text, bool_to_string, concat2, decimal, first_index, owned, str_eq, string_views,
    u64_to_string,
};
use crate::url::{params_view, request_url_spec, websocket_url, WS_BASE_URL};

verus! {

broadcast use vstd::string::group_string_axioms;

/// Convert text to speech with a voice.
#[derive(Clone, Debug)]
pub struct TextToSpeech {
    pub voice_id: String,
    pub body: TextToSpeechBody,
    pub query: Option<TextToSpeechQuery>,
}

impl TextToSpeech {
    pub fn new(voice_id: &str, body: TextToSpeechBody) -> (r: Self)
        ensures
            r.voice_id@ == voice_id@,
            r.body == body,
            r.query is None,
    {
        TextToSpeech { voice_id: owned(voice_id), body, query: None }
    }

    pub fn with_query(self, query: TextToSpeechQuery) -> (r: Self)
        ensures
            r.query == Some(query),
            r == (Self { query: r.query, ..self }),
    {
        Self { query: Some(query), ..self }
    }
}

impl ElevenLabsEndpoint for TextToSpeech {
    fn path(&self) -> (p: &'static str)
        ensures
            p@ == "/v1/text-to-speech/:voice_id"@,
    {
        "/v1/text-to-speech/:voice_id"
    }

    fn method(&self) -> (m: HttpMethod)
        ensures
            m == HttpMethod::Post,
    {
        HttpMethod::Post
    }

    fn query_params(&self) -> (r: Option<QueryValues>)
        ensures
            opt_query_view(r) == match self.query {
                Some(q) => Some(query_view(q.params@)),
                None => None::<Seq<(Seq<char>, Seq<char>)>>,
            },
    {
        match &self.query {
            Some(q) => Some(clone_query(&q.params)),
            None => None,
        }
    }

    fn path_params(&self) -> (r: Vec<(&'static str, String)>)
        ensures
            r@.len() == 1,
            r@[0].0@ == ":voice_id"@ && r@[0].1@ == self.voice_id@,
    {
        let mut v: Vec<(&'static str, String)> = Vec::new();
        v.push((":voice_id", self.voice_id.clone()));
        v
    }
}

/// Convert text to speech and stream the audio.
#[derive(Clone, Debug)]
pub struct TextToSpeechStream {
    pub voice_id: String,
    pub body: TextToSpeechBody,
    pub query: Option<TextToSpeechQuery>,
}

impl TextToSpeechStream {
    pub fn new(voice_id: &str, body: TextToSpeechBody) -> (r: Self)
        ensures
            r.voice_id@ == voice_id@,
            r.body == body,
            r.query is None,
    {
        TextToSpeechStream { voice_id: owned(voice_id), body, query: None }
    }

    pub fn with_query(self, query: TextToSpeechQuery) -> (r: Self)
        ensures
            r.query == Some(query),
            r == (Self { query: r.query, ..self }),
    {
        Self { query: Some(query), ..self }
    }
}

impl ElevenLabsEndpoint for TextToSpeechStream {
    fn path(&self) -> (p: &'static str)
        ensures
            p@ == "/v1/text-to-speech/:voice_id/stream"@,
    {
        "/v1/text-to-speech/:voice_id/stream"
    }

    fn method(&self) -> (m: HttpMethod)
        ensures
            m == HttpMethod::Post,
    {
        HttpMethod::Post
    }

    fn query_params(&self) -> (r: Option<QueryValues>)
        ensures
            opt_query_view(r) == match self.query {
                Some(q) => Some(query_view(q.params@)),
                None => None::<Seq<(Seq<char>, Seq<char>)>>,
            },
    {
        match &self.query {
            Some(q) => Some(clone_query(&q.params)),
            None => None,
        }
    }

    fn path_params(&self) -> (r: Vec<(&'static str, String)>)
        ensures
            r@.len() == 1,
            r@[0].0@ == ":voice_id"@ && r@[0].1@ == self.voice_id@,
    {
        let mut v: Vec<(&'static str, String)> = Vec::new();
        v.push((":voice_id", self.voice_id.clone()));
        v
    }
}

/// Convert text to speech with character timing.
#[derive(Clone, Debug)]
pub struct TextToSpeechWithTimestamps {
    pub voice_id: String,
    pub body: TextToSpeechBody,
    pub query: Option<TextToSpeechQuery>,
}

impl TextToSpeechWithTimestamps {
    pub fn new(voice_id: &str, body: TextToSpeechBody) -> (r: Self)
        ensures
            r.voice_id@ == voice_id@,
            r.body == body,
            r.query is None,
    {
        TextToSpeechWithTimestamps { voice_id: owned(voice_id), body, query: None }
    }

    pub fn with_query(self, query: TextToSpeechQuery) -> (r: Self)
        ensures
            r.query == Some(query),
            r == (Self { query: r.query, ..self }),
    {
        Self { query: Some(query), ..self }
    }
}

impl ElevenLabsEndpoint for TextToSpeechWithTimestamps {
    fn path(&self) -> (p: &'static str)
        ensures
            p@ == "/v1/text-to-speech/:voice_id/with-timestamps"@,
    {
        "/v1/text-to-speech/:voice_id/with-timestamps"
    }

    fn method(&self) -> (m: HttpMethod)
        ensures
            m == HttpMethod::Post,
    {
        HttpMethod::Post
    }

    fn query_params(&self) -> (r: Option<QueryValues>)
        ensures
            opt_query_view(r) == match self.query {
                Some(q) => Some(query_view(q.params@)),
                None => None::<Seq<(Seq<char>, Seq<char>)>>,
            },
    {
        match &self.query {
            Some(q) => Some(clone_query(&q.params)),
            None => None,
        }
    }

    fn path_params(&self) -> (r: Vec<(&'static str, String)>)
        ensures
            r@.len() == 1,
            r@[0].0@ == ":voice_id"@ && r@[0].1@ == self.voice_id@,
    {
        let mut v: Vec<(&'static str, String)> = Vec::new();
        v.push((":voice_id", self.voice_id.clone()));
        v
    }
}

/// Stream speech with character timing.
#[derive(Clone, Debug)]
pub struct TextToSpeechStreamWithTimestamps {
    pub voice_id: String,
    pub body: TextToSpeechBody,
    pub query: Option<TextToSpeechQuery>,
}

impl TextToSpeechStreamWithTimestamps {
    pub fn new(voice_id: &str, body: TextToSpeechBody) -> (r: Self)
        ensures
            r.voice_id@ == voice_id@,
            r.body == body,
            r.query is None,
    {
        TextToSpeechStreamWithTimestamps { voice_id: owned(voice_id), body, query: None }
    }

    pub fn with_query(self, query: TextToSpeechQuery) -> (r: Self)
        ensures
            r.query == Some(query),
            r == (Self { query: r.query, ..self }),
    {
        Self { query: Some(query), ..self }
    }
}

impl ElevenLabsEndpoint for TextToSpeechStreamWithTimestamps {
    fn path(&self) -> (p: &'static str)
        ensures
            p@ == "/v1/text-to-speech/:voice_id/stream/with-timestamps"@,
    {
        "/v1/text-to-speech/:voice_id/stream/with-timestamps"
    }

    fn method(&self) -> (m: HttpMethod)
        ensures
            m == HttpMethod::Post,
    {
        HttpMethod::Post
    }

    fn query_params(&self) -> (r: Option<QueryValues>)
        ensures
            opt_query_view(r) == match self.query {
                Some(q) => Some(query_view(q.params@)),
                None => None::<Seq<(Seq<char>, Seq<char>)>>,
            },
    {
        match &self.query {
            Some(q) => Some(clone_query(&q.params)),
            None => None,
        }
    }

    fn path_params(&self) -> (r: Vec<(&'static str, String)>)
        ensures
            r@.len() == 1,
            r@[0].0@ == ":voice_id"@ && r@[0].1@ == self.voice_id@,
    {
        let mut v: Vec<(&'static str, String)> = Vec::new();
        v.push((":voice_id", self.voice_id.clone()));
        v
    }
}

/// The body of a text-to-speech request.
#[derive(Clone, Debug)]
pub struct TextToSpeechBody {
    pub text: String,
    pub model_id: Option<String>,
    pub language_code: Option<String>,
    pub pronunciation_dictionary_locators: Option<Vec<DictionaryLocator>>,
    pub seed: Option<u64>,
    pub previous_text: Option<String>,
    pub next_text: Option<String>,
    pub previous_request_ids: Option<Vec<String>>,
    pub next_request_ids: Option<Vec<String>>,
    pub apply_text_normalization: Option<Normalization>,
    pub apply_language_text_normalization: Option<bool>,
    /// The voice settings, as the JSON object the request carries.
    pub voice_settings: Option<String>,
}

/// A body with nothing set but the text.
pub open spec fn tts_defaults(b: TextToSpeechBody) -> bool {
    &&& b.model_id is None
    &&& b.language_code is None
    &&& b.pronunciation_dictionary_locators is None
    &&& b.seed is None
    &&& b.previous_text is None
    &&& b.next_text is None
    &&& b.previous_request_ids is None
    &&& b.next_request_ids is None
    &&& b.apply_text_normalization is None
    &&& b.apply_language_text_normalization is None
    &&& b.voice_settings is None
}

impl TextToSpeechBody {
    pub fn new(text: &str) -> (r: Self)
        ensures
            r.text@ == text@,
            tts_defaults(r),
    {
        TextToSpeechBody {
            text: owned(text),
            model_id: None,
            language_code: None,
            pronunciation_dictionary_locators: None,
            seed: None,
            previous_text: None,
            next_text: None,
            previous_request_ids: None,
            next_request_ids: None,
            apply_text_normalization: None,
            apply_language_text_normalization: None,
            voice_settings: None,
        }
    }

    pub fn with_model_id(self, model_id: &str) -> (r: Self)
        ensures
            r.model_id matches Some(s) && s@ == model_id@,
            r == (Self { model_id: r.model_id, ..self }),
    {
        Self { model_id: Some(owned(model_id)), ..self }
    }
    pub fn with_language_code(self, language_code: &str) -> (r: Self)
        ensures
            r.language_code matches Some(s) && s@ == language_code@,
            r == (Self { language_code: r.language_code, ..self }),
    {
        Self { language_code: Some(owned(language_code)), ..self }
    }
    /// The dictionaries to apply: the filled slots of `locators`, in order.
    pub fn with_dictionary_locators(self, locators: DictionaryLocators) -> (r: Self)
        ensures
            r.pronunciation_dictionary_locators matches Some(v) && v@ == filled(locators.0@),
            r == (Self { pronunciation_dictionary_locators: r.pronunciation_dictionary_locators, ..self }),
    {
        let values = locators.into_vec();
        Self { pronunciation_dictionary_locators: Some(values), ..self }
    }

    pub fn with_seed(self, seed: u64) -> (r: Self)
        ensures
            r.seed == Some(seed),
            r == (Self { seed: r.seed, ..self }),
    {
        Self { seed: Some(seed), ..self }
    }
    pub fn with_previous_text(self, previous_text: &str) -> (r: Self)
        ensures
            r.previous_text matches Some(s) && s@ == previous_text@,
            r == (Self { previous_text: r.previous_text, ..self }),
    {
        Self { previous_text: Some(owned(previous_text)), ..self }
    }
    pub fn with_next_text(self, next_text: &str) -> (r: Self)
        ensures
            r.next_text matches Some(s) && s@ == next_text@,
            r == (Self { next_text: r.next_text, ..self }),
    {
        Self { next_text: Some(owned(next_text)), ..self }
    }
    pub fn with_previous_request_ids(self, ids: Vec<String>) -> (r: Self)
        ensures
            r.previous_request_ids == Some(ids),
            r == (Self { previous_request_ids: r.previous_request_ids, ..self }),
    {
        Self { previous_request_ids: Some(ids), ..self }
    }
    pub fn with_next_request_ids(self, ids: Vec<String>) -> (r: Self)
        ensures
            r.next_request_ids == Some(ids),
            r == (Self { next_request_ids: r.next_request_ids, ..self }),
    {
        Self { next_request_ids: Some(ids), ..self }
    }
    pub fn with_text_normalization(self, normalization: Normalization) -> (r: Self)
        ensures
            r.apply_text_normalization == Some(normalization),
            r == (Self { apply_text_normalization: r.apply_text_normalization, ..self }),
    {
        Self { apply_text_normalization: Some(normalization), ..self }
    }
    pub fn with_language_text_normalization(self, enable: bool) -> (r: Self)
        ensures
            r.apply_language_text_normalization == Some(enable),
            r == (Self { apply_language_text_normalization: r.apply_language_text_normalization, ..self }),
    {
        Self { apply_language_text_normalization: Some(enable), ..self }
    }

    /// Sets the voice settings, given as the JSON object the request carries.
    pub fn with_voice_settings(self, voice_settings_json: &str) -> (r: Self)
        ensures
            r.voice_settings matches Some(v) && v@ == voice_settings_json@,
            r == (Self { voice_settings: r.voice_settings, ..self }),
    {
        Self { voice_settings: Some(owned(voice_settings_json)), ..self }
    }
}

/// Up to three pronunciation dictionaries, in the slots they were pushed to.
#[derive(Clone, Debug)]
pub struct DictionaryLocators(pub [Option<DictionaryLocator>; 3]);

/// The dictionaries in the filled slots, in order.
pub open spec fn filled(s: Seq<Option<DictionaryLocator>>) -> Seq<DictionaryLocator>
    decreases s.len(),
{
    if s.len() == 0 {
        seq![]
    } else {
        match s.last() {
            Some(l) => filled(s.drop_last()).push(l),
            None => filled(s.drop_last()),
        }
    }
}

/// Filled slots come before empty ones, as `push` leaves them.
pub open spec fn filled_first(s: Seq<Option<DictionaryLocator>>) -> bool {
    forall|i: int, j: int| 0 <= i < j < s.len() && s[i] is None ==> s[j] is None
}

impl Default for DictionaryLocators {
    fn default() -> (r: Self)
        ensures
            r.0@ == seq![None::<DictionaryLocator>, None, None],
    {
        DictionaryLocators([None, None, None])
    }
}

impl DictionaryLocators {
    /// Puts a locator in the first empty slot; false when all three are full.
    pub fn push(&mut self, locator: DictionaryLocator) -> (r: bool)
        ensures
            match first_index(old(self).0@, None::<DictionaryLocator>) {
                Some(i) => r && final(self).0@ == old(self).0@.update(i, Some(locator)),
                None => !r && final(self).0@ == old(self).0@,
            },
    {
        proof {
            crate::text::lemma_first_index_bounds(self.0@, None::<DictionaryLocator>);
        }
        let mut i: usize = 0;
        while i < 3
            invariant
                0 <= i <= 3,
                self.0@ == old(self).0@,
                forall|k: int| 0 <= k < i ==> self.0@[k] is Some,
            decreases 3 - i,
        {
            if self.0[i].is_none() {
                proof {
                    crate::text::lemma_first_index(self.0@, None::<DictionaryLocator>, i as int);
                }
                self.0[i] = Some(locator);
                return true;
            }
            i = i + 1;
        }
        proof {
            crate::text::lemma_first_index(self.0@, None::<DictionaryLocator>, 3);
        }
        false
    }

    /// The locators in the filled slots, in order.
    pub fn into_vec(self) -> (v: Vec<DictionaryLocator>)
        ensures
            v@ == filled(self.0@),
    {
        let mut v: Vec<DictionaryLocator> = Vec::new();
        let mut i: usize = 0;
        assert(self.0@.subrange(0, 0) =~= seq![]);
        while i < 3
            invariant
                0 <= i <= 3,
                self.0@.len() == 3,
                v@ == filled(self.0@.subrange(0, i as int)),
            decreases 3 - i,
        {
            assert(self.0@.subrange(0, i + 1).drop_last() =~= self.0@.subrange(0, i as int));
            match &self.0[i] {
                Some(l) => v.push(l.copy()),
                None => {},
            }
            i = i + 1;
        }
        assert(self.0@.subrange(0, 3) =~= self.0@);
        v
    }
}

/// Whether text normalization is applied.
#[derive(Clone, Copy, Debug, PartialEq, Eq, Structural)]
pub enum Normalization {
    Auto,
    On,
    Off,
}

pub open spec fn normalization_name(v: Normalization) -> Seq<char> {
    match v {
        Normalization::Auto => "auto"@,
        Normalization::On => "on"@,
        Normalization::Off => "off"@,
    }
}

/// The name of each normalization.
pub proof fn lemma_normalization_name_table()
    ensures
        normalization_name(Normalization::Auto) == "auto"@,
        normalization_name(Normalization::On) == "on"@,
        normalization_name(Normalization::Off) == "off"@,
{
}

impl Normalization {
    /// The wire name.
    pub fn as_str(self) -> (s: &'static str)
        ensures
            s@ == normalization_name(self),
    {
        match self {
            Normalization::Auto => "auto",
            Normalization::On => "on",
            Normalization::Off => "off",
        }
    }
}

/// Query parameters of the text-to-speech endpoints.
#[derive(Clone, Debug)]
pub struct TextToSpeechQuery {
    pub params: QueryValues,
}

impl Default for TextToSpeechQuery {
    fn default() -> (r: Self)
        ensures
            r.params@.len() == 0,
    {
        TextToSpeechQuery { params: Vec::new() }
    }
}

impl TextToSpeechQuery {
    pub fn with_output_format(self, output_format: OutputFormat) -> (r: Self)
        ensures
            query_view(r.params@) == query_view(self.params@).push(("output_format"@, format_name(output_format))),
    {
        let mut s = self;
        push_query(&mut s.params, "output_format", output_format.to_string());
        s
    }
    pub fn with_logging(self, enable_logging: bool) -> (r: Self)
        ensures
            query_view(r.params@) == query_view(self.params@).push(("enable_logging"@, bool_text(enable_logging))),
    {
        let mut s = self;
        push_query(&mut s.params, "enable_logging", bool_to_string(enable_logging));
        s
    }
}

/// Pushing onto locators whose filled slots come first keeps them so, and an
/// accepted push adds the locator after the ones already there; a push is
/// refused only when all three slots hold a locator.
pub proof fn lemma_push_appends(s: Seq<Option<DictionaryLocator>>, l: DictionaryLocator)
    requires
        s.len() == 3,
        filled_first(s),
    ensures
        match first_index(s, None::<DictionaryLocator>) {
            Some(i) => filled_first(s.update(i, Some(l))) && filled(s.update(i, Some(l))) == filled(
                s,
            ).push(l),
            None => filled(s).len() == 3,
        },
{
    reveal_with_fuel(filled, 4);
    crate::text::lemma_first_index_bounds(s, None::<DictionaryLocator>);
    let t0 = s.drop_last();
    let t1 = t0.drop_last();
    let t2 = t1.drop_last();
    assert(t2.len() == 0);
    match first_index(s, None::<DictionaryLocator>) {
        Some(i) => {
            let u = s.update(i, Some(l));
            assert(u.drop_last().drop_last().drop_last().len() == 0);
            if i == 0 {
                assert(s[1] is None && s[2] is None);
                assert(u.drop_last().drop_last() =~= seq![Some(l)]);
                assert(u.drop_last() =~= seq![Some(l), None]);
            } else if i == 1 {
                assert(s[2] is None);
                assert(u.drop_last().drop_last() =~= t1);
                assert(u.drop_last() =~= t1.push(Some(l)));
            } else {
                assert(u.drop_last() =~= t0);
            }
        },
        None => {},
    }
}

// ---------------------------------------------------------------------------
// WebSocket text to speech
// ---------------------------------------------------------------------------

/// The path of the single-context WebSocket endpoint.
pub const WS_PATH: &'static str = "/v1/text-to-speech/:voice_id/stream-input";

/// The path of the multi-context WebSocket endpoint.
pub const MULTI_CONTEXT_WS_PATH: &'static str = "/v1/text-to-speech/:voice_id/multi-stream-input";

/// Query parameters of the text-to-speech WebSocket endpoints.
#[derive(Clone, Debug)]
pub struct TTSWebSocketQuery {
    pub params: QueryValues,
}

impl Default for TTSWebSocketQuery {
    fn default() -> (r: Self)
        ensures
            r.params@.len() == 0,
    {
        TTSWebSocketQuery { params: Vec::new() }
    }
}

/// Whether a query authenticates: it carries `authorization` or
/// `single_use_token`.
pub open spec fn query_has_auth(q: Seq<(Seq<char>, Seq<char>)>) -> bool {
    exists|i: int|
        0 <= i < q.len() && (#[trigger] q[i].0 == "authorization"@ || q[i].0 == "single_use_token"@)
}

impl TTSWebSocketQuery {
    pub fn with_model_id(self, model_id: &str) -> (r: Self)
        ensures
            query_view(r.params@) == query_view(self.params@).push(("model_id"@, model_id@)),
    {
        let mut s = self;
        push_query(&mut s.params, "model_id", owned(model_id));
        s
    }
    /// Sets the inactivity timeout, in seconds written as a decimal.
    pub fn with_inactivity_timeout(self, timeout: &str) -> (r: Self)
        ensures
            query_view(r.params@) == query_view(self.params@).push(("inactivity_timeout"@, timeout@)),
    {
        let mut s = self;
        push_query(&mut s.params, "inactivity_timeout", owned(timeout));
        s
    }
    pub fn with_authorization(self, authorization: &str) -> (r: Self)
        ensures
            query_view(r.params@) == query_view(self.params@).push(("authorization"@, authorization@)),
    {
        let mut s = self;
        push_query(&mut s.params, "authorization", owned(authorization));
        s
    }
    pub fn with_single_use_token(self, single_use_token: &str) -> (r: Self)
        ensures
            query_view(r.params@) == query_view(self.params@).push(("single_use_token"@, single_use_token@)),
    {
        let mut s = self;
        push_query(&mut s.params, "single_use_token", owned(single_use_token));
        s
    }
    pub fn with_language_code(self, language_code: &str) -> (r: Self)
        ensures
            query_view(r.params@) == query_view(self.params@).push(("language_code"@, language_code@)),
    {
        let mut s = self;
        push_query(&mut s.params, "language_code", owned(language_code));
        s
    }
    pub fn with_logging(self, enable_logging: bool) -> (r: Self)
        ensures
            query_view(r.params@) == query_view(self.params@).push(("enable_logging"@, bool_text(enable_logging))),
    {
        let mut s = self;
        push_query(&mut s.params, "enable_logging", bool_to_string(enable_logging));
        s
    }
    pub fn with_ssml_parsing(self, enable_ssml_parsing: bool) -> (r: Self)
        ensures
            query_view(r.params@) == query_view(self.params@).push(("enable_ssml_parsing"@, bool_text(enable_ssml_parsing))),
    {
        let mut s = self;
        push_query(&mut s.params, "enable_ssml_parsing", bool_to_string(enable_ssml_parsing));
        s
    }
    pub fn with_output_format(self, output_format: OutputFormat) -> (r: Self)
        ensures
            query_view(r.params@) == query_view(self.params@).push(("output_format"@, format_name(output_format))),
    {
        let mut s = self;
        push_query(&mut s.params, "output_format", output_format.to_string());
        s
    }
    pub fn with_auto_mode(self, auto_mode: bool) -> (r: Self)
        ensures
            query_view(r.params@) == query_view(self.params@).push(("auto_mode"@, bool_text(auto_mode))),
    {
        let mut s = self;
        push_query(&mut s.params, "auto_mode", bool_to_string(auto_mode));
        s
    }
    pub fn with_sync_alignment(self, sync_alignment: bool) -> (r: Self)
        ensures
            query_view(r.params@) == query_view(self.params@).push(("sync_alignment"@, bool_text(sync_alignment))),
    {
        let mut s = self;
        push_query(&mut s.params, "sync_alignment", bool_to_string(sync_alignment));
        s
    }
    pub fn with_text_normalization(self, normalization: Normalization) -> (r: Self)
        ensures
            query_view(r.params@) == query_view(self.params@).push(("apply_text_normalization"@, normalization_name(normalization))),
    {
        let mut s = self;
        push_query(&mut s.params, "apply_text_normalization", owned(normalization.as_str()));
        s
    }
    pub fn with_seed(self, seed: u32) -> (r: Self)
        ensures
            query_view(r.params@) == query_view(self.params@).push(("seed"@, decimal(seed as nat))),
    {
        let mut s = self;
        push_query(&mut s.params, "seed", u64_to_string(seed as u64));
        s
    }

    /// Whether the query carries its own authentication.
    pub fn uses_auth(&self) -> (b: bool)
        ensures
            b == query_has_auth(query_view(self.params@)),
    {
        let mut i: usize = 0;
        while i < self.params.len()
            invariant
                0 <= i <= self.params@.len(),
                forall|k: int|
                    0 <= k < i ==> query_view(self.params@)[k].0 != "authorization"@
                        && query_view(self.params@)[k].0 != "single_use_token"@,
            decreases self.params.len() - i,
        {
            let name = self.params[i].0;
            if str_eq(name, "authorization") || str_eq(name, "single_use_token") {
                assert(query_view(self.params@)[i as int].0 == name@);
                return true;
            }
            i = i + 1;
        }
        false
    }
}

/// A chunk length schedule for generation.
#[derive(Clone, Copy, Debug, PartialEq, Eq)]
pub struct GenerationConfig {
    pub chunk_length_schedule: [usize; 4],
}

impl GenerationConfig {
    pub fn new(chunk_length_schedule: [usize; 4]) -> (r: Self)
        ensures
            r.chunk_length_schedule == chunk_length_schedule,
    {
        GenerationConfig { chunk_length_schedule }
    }

    pub fn chunk_length_schedule(&self) -> (s: [usize; 4])
        ensures
            s == self.chunk_length_schedule,
    {
        self.chunk_length_schedule
    }
}

/// The first message of a single-context session.
#[derive(Clone, Debug)]
pub struct BOSMessage {
    pub text: String,
    pub xi_api_key: Option<String>,
    /// The voice settings, as the JSON object the message carries.
    pub voice_settings: Option<String>,
    pub authorization: Option<String>,
    pub generation_config: Option<GenerationConfig>,
}

impl Default for BOSMessage {
    /// A single space, and nothing else set.
    fn default() -> (r: Self)
        ensures
            r.text@ == " "@,
            r.xi_api_key is None,
            r.voice_settings is None,
            r.authorization is None,
            r.generation_config is None,
    {
        BOSMessage {
            text: owned(" "),
            xi_api_key: None,
            voice_settings: None,
            authorization: None,
            generation_config: None,
        }
    }
}

impl BOSMessage {
    pub fn with_api_key(self, api_key: &str) -> (r: Self)
        ensures
            r.xi_api_key matches Some(s) && s@ == api_key@,
            r == (Self { xi_api_key: r.xi_api_key, ..self }),
    {
        Self { xi_api_key: Some(owned(api_key)), ..self }
    }

    /// Sets the voice settings, given as the JSON object the message carries.
    pub fn with_voice_settings(self, voice_settings_json: &str) -> (r: Self)
        ensures
            r.voice_settings matches Some(v) && v@ == voice_settings_json@,
            r == (Self { voice_settings: r.voice_settings, ..self }),
    {
        Self { voice_settings: Some(owned(voice_settings_json)), ..self }
    }
    /// Authenticates with a bearer token.
    pub fn with_authorization(self, authorisation: &str) -> (r: Self)
        ensures
            r.authorization matches Some(a) && a@ == "Bearer "@ + authorisation@,
            r == (Self { authorization: r.authorization, ..self }),
    {
        Self { authorization: Some(concat2("Bearer ", authorisation)), ..self }
    }

    pub fn with_generation_config(self, generation_config: [usize; 4]) -> (r: Self)
        ensures
            r.generation_config == Some(GenerationConfig { chunk_length_schedule: generation_config }),
            r == (Self { generation_config: r.generation_config, ..self }),
    {
        Self { generation_config: Some(GenerationConfig::new(generation_config)), ..self }
    }
}

/// What a single-context session sends: the first message, the text to
/// speak, and whether to flush before the end.
#[derive(Debug)]
pub struct WebSocketTTSBody<S> {
    pub bos_message: BOSMessage,
    pub text_stream: S,
    pub flush: bool,
}

impl<S> WebSocketTTSBody<S> {
    pub fn new(bos_message: BOSMessage, text_stream: S) -> (r: Self)
        ensures
            r.bos_message == bos_message,
            r.text_stream == text_stream,
            !r.flush,
    {
        WebSocketTTSBody { bos_message, text_stream, flush: false }
    }

    pub fn with_flush(self) -> (r: Self)
        ensures
            r.flush,
            r.bos_message == self.bos_message,
            r.text_stream == self.text_stream,
    {
        WebSocketTTSBody { flush: true, ..self }
    }
}

/// A text message of a single-context session.
#[derive(Clone, Debug)]
pub struct WebSocketTextMessage {
    pub text: String,
    pub flush: Option<bool>,
}

impl WebSocketTextMessage {
    pub fn new(text: &str) -> (r: Self)
        ensures
            r.text@ == text@,
            r.flush is None,
    {
        WebSocketTextMessage { text: owned(text), flush: None }
    }

    /// A single space that asks for the buffered text to be spoken.
    pub fn flush() -> (r: Self)
        ensures
            r.text@ == " "@,
            r.flush == Some(true),
    {
        WebSocketTextMessage { text: owned(" "), flush: Some(true) }
    }

    /// The empty text that ends the input.
    pub fn end_of_sequence() -> (r: Self)
        ensures
            r.text@ == Seq::<char>::empty(),
            r.flush is None,
    {
        WebSocketTextMessage { text: String::new(), flush: None }
    }
}

/// The messages sent after the text: a flush when asked for, then the end.
pub fn closing_messages(flush: bool) -> (v: Vec<WebSocketTextMessage>)
    ensures
        v@.len() == (if flush { 2int } else { 1int }),
        flush ==> v@[0].text@ == " "@ && v@[0].flush == Some(true),
        v@.last().text@ == Seq::<char>::empty() && v@.last().flush is None,
{
    let mut v: Vec<WebSocketTextMessage> = Vec::new();
    if flush {
        v.push(WebSocketTextMessage::flush());
    }
    v.push(WebSocketTextMessage::end_of_sequence());
    v
}

/// One message of a single-context session: the first message, or a text.
#[derive(Debug)]
pub enum WebSocketTTSInput {
    Bos(BOSMessage),
    Text(WebSocketTextMessage),
}

/// Whether `i` is the text message with the given text and flush mark.
pub open spec fn is_text_input(i: WebSocketTTSInput, m: (Seq<char>, Option<bool>)) -> bool {
    i matches WebSocketTTSInput::Text(t) && t.text@ == m.0 && t.flush == m.1
}

/// The text and flush mark of the messages after the spoken texts: a
/// flushing space when asked for, then the empty text that ends the input.
pub open spec fn closing_texts(flush: bool) -> Seq<(Seq<char>, Option<bool>)> {
    (if flush { seq![(" "@, Some(true))] } else { seq![] }) + seq![(Seq::<char>::empty(), None::<bool>)]
}

/// The text and flush mark of every message after the first: each spoken
/// text, unflushed, then the closing messages.
pub open spec fn text_messages(texts: Seq<Seq<char>>, flush: bool) -> Seq<(Seq<char>, Option<bool>)> {
    texts.map_values(|t: Seq<char>| (t, None::<bool>)) + closing_texts(flush)
}

/// The message that carries one piece of the text to speak.
pub fn text_input(text: &str) -> (r: WebSocketTTSInput)
    ensures
        is_text_input(r, (text@, None)),
{
    WebSocketTTSInput::Text(WebSocketTextMessage::new(text))
}

/// The messages sent after the spoken texts.
pub fn closing_inputs(flush: bool) -> (v: Vec<WebSocketTTSInput>)
    ensures
        v@.len() == closing_texts(flush).len(),
        forall|i: int| 0 <= i < v@.len() ==> #[trigger] is_text_input(v@[i], closing_texts(flush)[i]),
{
    let mut v: Vec<WebSocketTTSInput> = Vec::new();
    if flush {
        v.push(WebSocketTTSInput::Text(WebSocketTextMessage::flush()));
    }
    v.push(WebSocketTTSInput::Text(WebSocketTextMessage::end_of_sequence()));
    v
}

/// Every message of a session that speaks `texts`: the first message, one
/// message per text in order, a flush when asked for, and the end.
pub fn input_sequence(bos: BOSMessage, texts: &Vec<String>, flush: bool) -> (v: Vec<WebSocketTTSInput>)
    ensures
        v@.len() == 1 + text_messages(string_views(texts@), flush).len(),
        v@[0] == WebSocketTTSInput::Bos(bos),
        forall|i: int|
            0 <= i < text_messages(string_views(texts@), flush).len() ==> #[trigger] is_text_input(
                v@[i + 1],
                text_messages(string_views(texts@), flush)[i],
            ),
{
    let ghost expected = text_messages(string_views(texts@), flush);
    let mut v: Vec<WebSocketTTSInput> = Vec::new();
    v.push(WebSocketTTSInput::Bos(bos));
    let mut i: usize = 0;
    while i < texts.len()
        invariant
            i <= texts@.len(),
            v@.len() == 1 + i,
            v@[0] == WebSocketTTSInput::Bos(bos),
            expected == text_messages(string_views(texts@), flush),
            forall|j: int| 0 <= j < i ==> #[trigger] is_text_input(v@[j + 1], expected[j]),
        decreases texts@.len() - i,
    {
        v.push(text_input(texts[i].as_str()));
        i = i + 1;
    }
    let tail = closing_inputs(flush);
    let ghost n = texts@.len();
    let mut k: usize = 0;
    let mut tail = tail;
    let ghost tail0 = tail@;
    let total = closing_len(flush);
    while k < total
        invariant
            total == closing_texts(flush).len(),
            k <= total,
            k + tail@.len() == total,
            tail@ == tail0.subrange(k as int, tail0.len() as int),
            tail0.len() == closing_texts(flush).len(),
            forall|j: int| 0 <= j < tail0.len() ==> #[trigger] is_text_input(tail0[j], closing_texts(flush)[j]),
            v@.len() == 1 + n + k,
            v@[0] == WebSocketTTSInput::Bos(bos),
            n == texts@.len(),
            expected == text_messages(string_views(texts@), flush),
            forall|j: int| 0 <= j < n + k ==> #[trigger] is_text_input(v@[j + 1], expected[j]),
        decreases total - k,
    {
        let m = tail.remove(0);
        assert(m == tail0[k as int]);
        v.push(m);
        k = k + 1;
    }
    v
}

/// The number of closing messages.
fn closing_len(flush: bool) -> (n: usize)
    ensures
        n == closing_texts(flush).len(),
{
    if flush { 2 } else { 1 }
}

/// A single-context text-to-speech WebSocket session.
#[derive(Debug)]
pub struct WebSocketTTS<S> {
    pub voice_id: String,
    pub body: WebSocketTTSBody<S>,
    pub query: Option<TTSWebSocketQuery>,
}

/// The query of a WebSocket endpoint, empty when none is set.
pub open spec fn ws_query_view(q: Option<TTSWebSocketQuery>) -> Seq<(Seq<char>, Seq<char>)> {
    match q {
        Some(q) => query_view(q.params@),
        None => seq![],
    }
}

/// Whether the optional query carries its own authentication.
pub open spec fn opt_query_has_auth(q: Option<TTSWebSocketQuery>) -> bool {
    match q {
        Some(q) => query_has_auth(query_view(q.params@)),
        None => false,
    }
}

fn ws_query_values(q: &Option<TTSWebSocketQuery>) -> (r: QueryValues)
    ensures
        query_view(r@) == ws_query_view(*q),
{
    match q {
        Some(q) => clone_query(&q.params),
        None => {
            let v: QueryValues = Vec::new();
            assert(query_view(v@) =~= seq![]);
            v
        },
    }
}

fn voice_params(voice_id: &String) -> (r: Vec<(&'static str, String)>)
    ensures
        params_view(r@) == seq![(":voice_id"@, voice_id@)],
{
    let mut v: Vec<(&'static str, String)> = Vec::new();
    v.push((":voice_id", voice_id.clone()));
    assert(params_view(v@) =~= seq![(":voice_id"@, voice_id@)]);
    v
}

fn opt_uses_auth(q: &Option<TTSWebSocketQuery>) -> (b: bool)
    ensures
        b == opt_query_has_auth(*q),
{
    match q {
        Some(q) => q.uses_auth(),
        None => false,
    }
}

impl<S> WebSocketTTS<S> {
    pub fn new(voice_id: &str, body: WebSocketTTSBody<S>) -> (r: Self)
        ensures
            r.voice_id@ == voice_id@,
            r.body == body,
            r.query is None,
    {
        WebSocketTTS { voice_id: owned(voice_id), body, query: None }
    }

    pub fn with_query(self, query: TTSWebSocketQuery) -> (r: Self)
        ensures
            r.query == Some(query),
            r.voice_id == self.voice_id,
            r.body == self.body,
    {
        WebSocketTTS { query: Some(query), ..self }
    }

    /// The URL of the session.
    pub fn url(&self) -> (r: Result<String, Error>)
        ensures
            match request_url_spec(
                WS_BASE_URL@,
                WS_PATH@,
                seq![(":voice_id"@, self.voice_id@)],
                Some(ws_query_view(self.query)),
            ) {
                Ok(t) => r matches Ok(s) && s@ == t,
                Err(_) => r is Err,
            },
    {
        let q = ws_query_values(&self.query);
        let p = voice_params(&self.voice_id);
        websocket_url(WS_BASE_URL, WS_PATH, p.as_slice(), &q)
    }

    /// The single-context endpoint authenticates in its first message, not
    /// with a header.
    pub fn auth(&self) -> (a: WebSocketAuth)
        ensures
            a == WebSocketAuth::TokenInUrl,
    {
        WebSocketAuth::TokenInUrl
    }

    /// Whether the API key must be put in the first message: when neither
    /// the query nor the first message authenticates already.
    pub fn should_inject_bos_api_key(&self) -> (b: bool)
        ensures
            b == (!opt_query_has_auth(self.query) && self.body.bos_message.authorization is None
                && self.body.bos_message.xi_api_key is None),
    {
        !opt_uses_auth(&self.query) && self.body.bos_message.authorization.is_none()
            && self.body.bos_message.xi_api_key.is_none()
    }

    /// Puts the API key in the first message when
    /// [`should_inject_bos_api_key`](Self::should_inject_bos_api_key) says so.
    pub fn inject_api_key(&mut self, api_key: &str)
        ensures
            final(self).voice_id == old(self).voice_id,
            final(self).query == old(self).query,
            final(self).body.text_stream == old(self).body.text_stream,
            final(self).body.flush == old(self).body.flush,
            final(self).body.bos_message.authorization == old(self).body.bos_message.authorization,
            final(self).body.bos_message.text == old(self).body.bos_message.text,
            final(self).body.bos_message.generation_config == old(self).body.bos_message.generation_config,
            final(self).body.bos_message.voice_settings == old(self).body.bos_message.voice_settings,
            (!opt_query_has_auth(old(self).query) && old(self).body.bos_message.authorization is None
                && old(self).body.bos_message.xi_api_key is None) ==> (final(self).body.bos_message.xi_api_key matches Some(k) && k@ == api_key@),
            !(!opt_query_has_auth(old(self).query) && old(self).body.bos_message.authorization is None
                && old(self).body.bos_message.xi_api_key is None) ==> final(self).body.bos_message.xi_api_key == old(self).body.bos_message.xi_api_key,
    {
        if self.should_inject_bos_api_key() {
            self.body.bos_message.xi_api_key = Some(owned(api_key));
        }
    }

    /// The session's messages around the spoken text: the first message,
    /// carrying the API key when
    /// [`should_inject_bos_api_key`](Self::should_inject_bos_api_key) says
    /// so; the text stream, each piece of which goes out as
    /// [`text_input`]; and the closing messages.
    pub fn into_input_parts(self, api_key: &str) -> (r: (WebSocketTTSInput, S, Vec<WebSocketTTSInput>))
        ensures
            r.0 matches WebSocketTTSInput::Bos(b) && {
                &&& b.text == self.body.bos_message.text
                &&& b.voice_settings == self.body.bos_message.voice_settings
                &&& b.authorization == self.body.bos_message.authorization
                &&& b.generation_config == self.body.bos_message.generation_config
                &&& (!opt_query_has_auth(self.query) && self.body.bos_message.authorization is None
                    && self.body.bos_message.xi_api_key is None) ==> (b.xi_api_key matches Some(k) && k@ == api_key@)
                &&& !(!opt_query_has_auth(self.query) && self.body.bos_message.authorization is None
                    && self.body.bos_message.xi_api_key is None) ==> b.xi_api_key == self.body.bos_message.xi_api_key
            },
            r.1 == self.body.text_stream,
            r.2@.len() == closing_texts(self.body.flush).len(),
            forall|i: int| 0 <= i < r.2@.len() ==> #[trigger] is_text_input(r.2@[i], closing_texts(self.body.flush)[i]),
    {
        let mut s = self;
        s.inject_api_key(api_key);
        let closing = closing_inputs(s.body.flush);
        let WebSocketTTS { voice_id: _, body, query: _ } = s;
        let WebSocketTTSBody { bos_message, text_stream, flush: _ } = body;
        (WebSocketTTSInput::Bos(bos_message), text_stream, closing)
    }

    /// The single-context session waits for the caller to close it.
    pub fn close_after_inputs(&self) -> (b: bool)
        ensures
            !b,
    {
        false
    }

    /// The name the session's errors carry.
    pub fn endpoint_name(&self) -> (n: &'static str)
        ensures
            n@ == "text_to_speech.websocket"@,
    {
        "text_to_speech.websocket"
    }
}

impl<S> crate::ws::Sealed for WebSocketTTS<S> {}

/// A multi-context text-to-speech WebSocket session.
#[derive(Debug)]
pub struct MultiContextWebSocketTTS<S> {
    pub voice_id: String,
    pub input_stream: S,
    pub query: Option<TTSWebSocketQuery>,
}

impl<S> MultiContextWebSocketTTS<S> {
    pub fn new(voice_id: &str, input_stream: S) -> (r: Self)
        ensures
            r.voice_id@ == voice_id@,
            r.input_stream == input_stream,
            r.query is None,
    {
        MultiContextWebSocketTTS { voice_id: owned(voice_id), input_stream, query: None }
    }

    pub fn with_query(self, query: TTSWebSocketQuery) -> (r: Self)
        ensures
            r.query == Some(query),
            r.voice_id == self.voice_id,
            r.input_stream == self.input_stream,
    {
        MultiContextWebSocketTTS { query: Some(query), ..self }
    }

    /// The URL of the session.
    pub fn url(&self) -> (r: Result<String, Error>)
        ensures
            match request_url_spec(
                WS_BASE_URL@,
                MULTI_CONTEXT_WS_PATH@,
                seq![(":voice_id"@, self.voice_id@)],
                Some(ws_query_view(self.query)),
            ) {
                Ok(t) => r matches Ok(s) && s@ == t,
                Err(_) => r is Err,
            },
    {
        let q = ws_query_values(&self.query);
        let p = voice_params(&self.voice_id);
        websocket_url(WS_BASE_URL, MULTI_CONTEXT_WS_PATH, p.as_slice(), &q)
    }

    /// The API key header, unless the query authenticates.
    pub fn auth(&self) -> (a: WebSocketAuth)
        ensures
            a == (if opt_query_has_auth(self.query) {
                WebSocketAuth::TokenInUrl
            } else {
                WebSocketAuth::XiApiKeyHeader
            }),
    {
        if opt_uses_auth(&self.query) {
            WebSocketAuth::TokenInUrl
        } else {
            WebSocketAuth::XiApiKeyHeader
        }
    }

    /// The multi-context session waits for the caller to close it.
    pub fn close_after_inputs(&self) -> (b: bool)
        ensures
            !b,
    {
        false
    }

    /// The name the session's errors carry.
    pub fn endpoint_name(&self) -> (n: &'static str)
        ensures
            n@ == "text_to_speech.multi_context_websocket"@,
    {
        "text_to_speech.multi_context_websocket"
    }
}

impl<S> crate::ws::Sealed for MultiContextWebSocketTTS<S> {}

/// A message of a multi-context session; each names its context.
#[derive(Clone, Debug)]
pub struct MultiContextTTSInput {
    pub text: Option<String>,
    pub context_id: Option<String>,
    /// The voice settings, as the JSON object the message carries.
    pub voice_settings: Option<String>,
    pub generation_config: Option<GenerationConfig>,
    pub flush: Option<bool>,
    pub close_context: Option<bool>,
    pub close_socket: Option<bool>,
    pub keep_context_alive: Option<bool>,
}

/// An input with nothing set.
pub open spec fn empty_input(i: MultiContextTTSInput) -> bool {
    &&& i.text is None
    &&& i.context_id is None
    &&& i.voice_settings is None
    &&& i.generation_config is None
    &&& i.flush is None
    &&& i.close_context is None
    &&& i.close_socket is None
    &&& i.keep_context_alive is None
}

impl Default for MultiContextTTSInput {
    fn default() -> (r: Self)
        ensures
            empty_input(r),
    {
        MultiContextTTSInput {
            text: None,
            context_id: None,
            voice_settings: None,
            generation_config: None,
            flush: None,
            close_context: None,
            close_socket: None,
            keep_context_alive: None,
        }
    }
}

/// The fields of an input other than the text, the context and one flag.
pub open spec fn only_context_and(i: MultiContextTTSInput, context_id: Seq<char>) -> bool {
    &&& i.context_id matches Some(c) && c@ == context_id
    &&& i.generation_config is None
    &&& i.close_socket is None
}

impl MultiContextTTSInput {
    /// Text to speak in a context.
    pub fn text(context_id: &str, text: &str) -> (r: Self)
        ensures
            r.text matches Some(t) && t@ == text@,
            only_context_and(r, context_id@),
            r.flush is None && r.close_context is None && r.keep_context_alive is None,
    {
        MultiContextTTSInput {
            text: Some(owned(text)),
            context_id: Some(owned(context_id)),
            ..Self::default()
        }
    }

    /// Opens a context with a single space.
    pub fn start_context(context_id: &str) -> (r: Self)
        ensures
            r.text matches Some(t) && t@ == " "@,
            only_context_and(r, context_id@),
            r.flush is None && r.close_context is None && r.keep_context_alive is None,
    {
        Self::text(context_id, " ")
    }

    /// Asks for the text buffered in a context to be spoken.
    pub fn flush(context_id: &str) -> (r: Self)
        ensures
            r.text is None,
            only_context_and(r, context_id@),
            r.flush == Some(true) && r.close_context is None && r.keep_context_alive is None,
    {
        MultiContextTTSInput { context_id: Some(owned(context_id)), flush: Some(true), ..Self::default() }
    }

    /// Closes a context.
    pub fn close_context(context_id: &str) -> (r: Self)
        ensures
            r.text is None,
            only_context_and(r, context_id@),
            r.flush is None && r.close_context == Some(true) && r.keep_context_alive is None,
    {
        MultiContextTTSInput {
            context_id: Some(owned(context_id)),
            close_context: Some(true),
            ..Self::default()
        }
    }

    /// Keeps a context from timing out.
    pub fn keep_context_alive(context_id: &str) -> (r: Self)
        ensures
            r.text is None,
            only_context_and(r, context_id@),
            r.flush is None && r.close_context is None && r.keep_context_alive == Some(true),
    {
        MultiContextTTSInput {
            context_id: Some(owned(context_id)),
            keep_context_alive: Some(true),
            ..Self::default()
        }
    }

    /// Closes the whole socket.
    pub fn close_socket() -> (r: Self)
        ensures
            r == (MultiContextTTSInput { close_socket: Some(true), ..r }),
            r.close_socket == Some(true),
            r.text is None && r.context_id is None && r.generation_config is None,
            r.flush is None && r.close_context is None && r.keep_context_alive is None,
    {
        MultiContextTTSInput { close_socket: Some(true), ..Self::default() }
    }

    /// Sets the voice settings, given as the JSON object the message carries.
    pub fn with_voice_settings(self, voice_settings_json: &str) -> (r: Self)
        ensures
            r.voice_settings matches Some(v) && v@ == voice_settings_json@,
            r == (Self { voice_settings: r.voice_settings, ..self }),
    {
        Self { voice_settings: Some(owned(voice_settings_json)), ..self }
    }

    pub fn with_generation_config(self, generation_config: [usize; 4]) -> (r: Self)
        ensures
            r.generation_config == Some(GenerationConfig { chunk_length_schedule: generation_config }),
            r == (Self { generation_config: r.generation_config, ..self }),
    {
        Self { generation_config: Some(GenerationConfig::new(generation_config)), ..self }
    }

    pub fn with_flush(self) -> (r: Self)
        ensures
            r.flush == Some(true),
            r == (Self { flush: Some(true), ..self }),
    {
        Self { flush: Some(true), ..self }
    }
}

// ---------------------------------------------------------------------------
// WebSocket answers
// ---------------------------------------------------------------------------

/// The error code of a WebSocket answer: a number or a name.
#[derive(Clone, Debug, PartialEq, Eq)]
pub enum WebSocketTTSErrorCode {
    Number(u16),
    Text(String),
}

impl WebSocketTTSErrorCode {
    /// The code as text: the number in decimal, or the name.
    pub fn to_string(&self) -> (s: String)
        ensures
            s@ == match self {
                WebSocketTTSErrorCode::Number(n) => decimal(*n as nat),
                WebSocketTTSErrorCode::Text(t) => t@,
            },
    {
        match self {
            WebSocketTTSErrorCode::Number(n) => u64_to_string(*n as u64),
            WebSocketTTSErrorCode::Text(t) => t.clone(),
        }
    }
}

/// The decoded audio of an answer: none for the final answer, else the
/// base64 audio decoded, or nothing when there is none; `None` when the
/// audio does not decode.
pub open spec fn answer_audio(is_final: bool, audio: Option<String>) -> Option<Seq<u8>> {
    if is_final {
        Some(seq![])
    } else {
        match audio {
            Some(a) => base64_decoding(a@),
            None => Some(seq![]),
        }
    }
}

/// The bytes an answer carries, as `answer_audio` says.
fn decode_answer_audio(is_final: bool, audio: &Option<String>) -> (r: Result<Vec<u8>, Error>)
    ensures
        match answer_audio(is_final, *audio) {
            Some(b) => r matches Ok(v) && v@ == b,
            None => r matches Err(Error::Base64DecodeError),
        },
{
    if is_final {
        return Ok(Vec::new());
    }
    match audio {
        Some(a) => match base64_decode(a.as_str()) {
            Some(v) => Ok(v),
            None => Err(Error::Base64DecodeError),
        },
        None => Ok(Vec::new()),
    }
}

/// Whether an answer carries audio: non-empty audio in an answer that is
/// not final.
pub open spec fn answer_has_audio(is_final: bool, audio: Option<String>) -> bool {
    (audio matches Some(a) && a@.len() > 0) && !is_final
}

/// What the library reads of a WebSocket answer.
#[derive(Clone, Debug)]
pub struct WebSocketTTSResponse {
    pub audio: Option<String>,
    pub is_final: Option<bool>,
    pub code: Option<WebSocketTTSErrorCode>,
    pub error: Option<String>,
    pub message: Option<String>,
}

impl WebSocketTTSResponse {
    /// The decoded audio; empty for the final answer or when there is none.
    pub fn audio_as_bytes(&self) -> (r: Result<Vec<u8>, Error>)
        ensures
            match answer_audio(self.is_final == Some(true), self.audio) {
                Some(b) => r matches Ok(v) && v@ == b,
                None => r matches Err(Error::Base64DecodeError),
            },
    {
        decode_answer_audio(self.is_final(), &self.audio)
    }

    /// Whether this is the final answer; absent means not.
    pub fn is_final(&self) -> (b: bool)
        ensures
            b == (self.is_final == Some(true)),
    {
        match self.is_final {
            Some(b) => b,
            None => false,
        }
    }

    pub fn audio_base64(&self) -> (a: Option<&str>)
        ensures
            match (a, self.audio) {
                (Some(x), Some(y)) => x@ == y@,
                (None, None) => true,
                _ => false,
            },
    {
        match &self.audio {
            Some(a) => Some(a.as_str()),
            None => None,
        }
    }

    /// Whether the answer carries audio to play.
    pub fn has_audio(&self) -> (b: bool)
        ensures
            b == answer_has_audio(self.is_final == Some(true), self.audio),
    {
        let non_empty = match &self.audio {
            Some(a) => !a.as_str().is_empty(),
            None => false,
        };
        non_empty && !self.is_final()
    }

    /// Whether the answer reports an error: an error name, a message or a
    /// code.
    pub fn is_error(&self) -> (b: bool)
        ensures
            b == (self.error is Some || self.message is Some || self.code is Some),
    {
        self.error.is_some() || self.message.is_some() || self.code.is_some()
    }

    pub fn error_name(&self) -> (e: Option<&str>)
        ensures
            match (e, self.error) {
                (Some(x), Some(y)) => x@ == y@,
                (None, None) => true,
                _ => false,
            },
    {
        match &self.error {
            Some(e) => Some(e.as_str()),
            None => None,
        }
    }

    pub fn error_message(&self) -> (m: Option<&str>)
        ensures
            match (m, self.message) {
                (Some(x), Some(y)) => x@ == y@,
                (None, None) => true,
                _ => false,
            },
    {
        match &self.message {
            Some(m) => Some(m.as_str()),
            None => None,
        }
    }
}

/// What the library reads of a WebSocket answer.
#[derive(Clone, Debug)]
pub struct MultiContextTTSResponse {
    pub audio: Option<String>,
    pub is_final: Option<bool>,
    pub context_id: Option<String>,
    pub code: Option<WebSocketTTSErrorCode>,
    pub error: Option<String>,
    pub message: Option<String>,
}

impl MultiContextTTSResponse {
    /// The decoded audio; empty for the final answer or when there is none.
    pub fn audio_as_bytes(&self) -> (r: Result<Vec<u8>, Error>)
        ensures
            match answer_audio(self.is_final == Some(true), self.audio) {
                Some(b) => r matches Ok(v) && v@ == b,
                None => r matches Err(Error::Base64DecodeError),
            },
    {
        decode_answer_audio(self.is_final(), &self.audio)
    }

    /// Whether this is the final answer; absent means not.
    pub fn is_final(&self) -> (b: bool)
        ensures
            b == (self.is_final == Some(true)),
    {
        match self.is_final {
            Some(b) => b,
            None => false,
        }
    }

    pub fn context_id(&self) -> (c: Option<&str>)
        ensures
            match (c, self.context_id) {
                (Some(a), Some(b)) => a@ == b@,
                (None, None) => true,
                _ => false,
            },
    {
        match &self.context_id {
            Some(c) => Some(c.as_str()),
            None => None,
        }
    }

    pub fn audio_base64(&self) -> (a: Option<&str>)
        ensures
            match (a, self.audio) {
                (Some(x), Some(y)) => x@ == y@,
                (None, None) => true,
                _ => false,
            },
    {
        match &self.audio {
            Some(a) => Some(a.as_str()),
            None => None,
        }
    }

    /// Whether the answer carries audio to play.
    pub fn has_audio(&self) -> (b: bool)
        ensures
            b == answer_has_audio(self.is_final == Some(true), self.audio),
    {
        let non_empty = match &self.audio {
            Some(a) => !a.as_str().is_empty(),
            None => false,
        };
        non_empty && !self.is_final()
    }

    /// Whether the answer reports an error: an error name, a message or a
    /// code.
    pub fn is_error(&self) -> (b: bool)
        ensures
            b == (self.error is Some || self.message is Some || self.code is Some),
    {
        self.error.is_some() || self.message.is_some() || self.code.is_some()
    }

    pub fn error_name(&self) -> (e: Option<&str>)
        ensures
            match (e, self.error) {
                (Some(x), Some(y)) => x@ == y@,
                (None, None) => true,
                _ => false,
            },
    {
        match &self.error {
            Some(e) => Some(e.as_str()),
            None => None,
        }
    }

    pub fn error_message(&self) -> (m: Option<&str>)
        ensures
            match (m, self.message) {
                (Some(x), Some(y)) => x@ == y@,
                (None, None) => true,
                _ => false,
            },
    {
        match &self.message {
            Some(m) => Some(m.as_str()),
            None => None,
        }
    }
}

} // verus!
