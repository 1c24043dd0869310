//! The sound effects endpoint and its query parameters.
use vstd::prelude::*;

use crate::endpoints::ElevenLabsEndpoint;
use crate::shared::{format_name, 
    clone_query, opt_query_view, push_query, query_view, HttpMethod, OutputFormat, QueryValues,
};

verus! {

broadcast use vstd::string::group_string_axioms;

/// The query parameters of the sound effects endpoint.
#[derive(Clone, Debug)]
pub struct CreateSoundEffectQuery {
    pub params: QueryValues,
}

impl Default for CreateSoundEffectQuery {
    fn default() -> (r: Self)
        ensures
            r.params@.len() == 0,
    {
        CreateSoundEffectQuery { params: Vec::new() }
    }
}

impl CreateSoundEffectQuery {
    /// Output format of the generated audio.
    pub fn with_output_format(self, output_format: OutputFormat) -> (r: Self)
        ensures
            query_view(r.params@) == query_view(self.params@).push(("output_format"@, format_name(output_format))),
    {
        let mut s = self;
        push_query(&mut s.params, "output_format", output_format.to_string());
        s
    }
}

/// Turns text into a sound effect. The body holds floating-point settings,
/// so its type is the caller's; the endpoint carries it to be serialised with
/// the request.
#[derive(Clone, Debug)]
pub struct CreateSoundEffect<B> {
    pub body: B,
    pub query: Option<CreateSoundEffectQuery>,
}

impl<B> CreateSoundEffect<B> {
    pub fn new(body: B) -> (r: Self)
        ensures
            r.body == body,
            r.query is None,
    {
        CreateSoundEffect { body, query: None }
    }

    pub fn with_query(self, query: CreateSoundEffectQuery) -> (r: Self)
        ensures
            r.body == self.body,
            r.query == Some(query),
    {
        CreateSoundEffect { body: self.body, query: Some(query) }
    }
}

impl<B> ElevenLabsEndpoint for CreateSoundEffect<B> {
    fn path(&self) -> (p: &'static str)
        ensures
            p@ == "/v1/sound-generation"@,
    {
        "/v1/sound-generation"
    }

    fn method(&self) -> (m: HttpMethod)
        ensures
            m == HttpMethod::Post,
    {
        HttpMethod::Post
    }

    fn query_params(&self) -> (r: Option<QueryValues>)
        ensures
            opt_query_view(r) == match self.query {
                Some(q) => Some(query_view(q.params@)),
                None => None::<Seq<(Seq<char>, Seq<char>)>>,
            },
    {
        match &self.query {
            Some(q) => Some(clone_query(&q.params)),
            None => None,
        }
    }

    fn path_params(&self) -> (r: Vec<(&'static str, String)>)
        ensures
            r@.len() == 0,
    {
        Vec::new()
    }
}

} // verus!
