//! Single-use tokens for clients that must not hold the API key.
use vstd::prelude::*;

use crate::endpoints::ElevenLabsEndpoint;
use crate::shared::{HttpMethod, QueryValues};
use crate::text::owned;

verus! {

broadcast use vstd::string::group_string_axioms;

/// The kind of a single-use token.
#[derive(Clone, Debug, PartialEq, Eq)]
pub struct SingleUseTokenType(pub String);

impl SingleUseTokenType {
    /// A token for realtime transcription.
    pub fn realtime_scribe() -> (r: Self)
        ensures
            r.0@ == "realtime_scribe"@,
    {
        SingleUseTokenType(owned("realtime_scribe"))
    }

    /// A token for the text-to-speech WebSocket.
    pub fn tts_websocket() -> (r: Self)
        ensures
            r.0@ == "tts_websocket"@,
    {
        SingleUseTokenType(owned("tts_websocket"))
    }

    /// A token of another kind.
    pub fn custom(token_type: &str) -> (r: Self)
        ensures
            r.0@ == token_type@,
    {
        SingleUseTokenType(owned(token_type))
    }

    pub fn as_str(&self) -> (s: &str)
        ensures
            s@ == self.0@,
    {
        self.0.as_str()
    }
}

/// Creates a single-use token.
#[derive(Clone, Debug)]
pub struct CreateSingleUseToken {
    pub token_type: SingleUseTokenType,
}

impl CreateSingleUseToken {
    pub fn new(token_type: SingleUseTokenType) -> (r: Self)
        ensures
            r.token_type == token_type,
    {
        CreateSingleUseToken { token_type }
    }
}

impl ElevenLabsEndpoint for CreateSingleUseToken {
    fn path(&self) -> (p: &'static str)
        ensures
            p@ == "/v1/single-use-token/:token_type"@,
    {
        "/v1/single-use-token/:token_type"
    }

    fn method(&self) -> (m: HttpMethod)
        ensures
            m == HttpMethod::Post,
    {
        HttpMethod::Post
    }

    fn query_params(&self) -> (r: Option<QueryValues>)
        ensures
            r is None,
    {
        None
    }

    fn path_params(&self) -> (r: Vec<(&'static str, String)>)
        ensures
            r@.len() == 1,
            r@[0].0@ == ":token_type"@ && r@[0].1@ == self.token_type.0@,
    {
        let mut v: Vec<(&'static str, String)> = Vec::new();
        v.push((":token_type", self.token_type.0.clone()));
        v
    }
}

/// The answer of [`CreateSingleUseToken`].
#[derive(Clone, Debug)]
pub struct CreateSingleUseTokenResponse {
    pub token: String,
}

} // verus!
