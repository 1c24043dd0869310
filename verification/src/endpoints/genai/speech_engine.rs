//! Speech engine endpoints and the upstream WebSocket protocol: request
//! builders, the verification of the authorization token the service sends,
//! and the decisions of an upstream session.
use vstd::prelude::*;

use hmac::{Hmac, Mac};
use sha2::{Digest, Sha256};

use vstd::utf8::{decode_utf8, encode_utf8, valid_utf8};

use crate::bytes::{base64url_decode, base64url_decoding, utf8_decode};
use crate::json::{
    array_items, entries_view, invalid_field_text, json_string_value, string_value, missing_field_text, field_opt_u64, field_string, field_u64, field_value, get_opt_u64, get_string, get_u64,
    get_value, invalid_field, json_array_items, json_object_entries, missing_field, object_entries, parse_entries,
    parse_object, rest_text, rest_without1, rest_without2,
};
use crate::endpoints::genai::speech_to_text::json_err;
use crate::endpoints::ElevenLabsEndpoint;
use crate::error::{Error, WebSocketDirection, WebSocketError, WebSocketErrorContext};
use crate::shared::{clone_query, opt_query_view, push_query, query_view, HttpMethod, QueryValues};
use crate::text::{
    chars_at, chars_of, concat2, decimal, u64_to_string, next_char, owned, split_char, starts_with, str_eq, string_from, trim, trim_range,
};

verus! {

broadcast use vstd::string::group_string_axioms;

// ---------------------------------------------------------------------------
// Authorization token
// ---------------------------------------------------------------------------

/// The header that carries the authorization token.
pub const AUTHORIZATION_HEADER: &'static str = "X-Elevenlabs-Speech-Engine-Authorization";

/// The issuer a token must name.
pub const JWT_ISSUER: &'static str = "https://api.elevenlabs.io/convai/speech-engine";

/// The subject a token must name.
pub const JWT_SUBJECT: &'static str = "convai_speech_engine_upstream";

/// Seconds a token is still accepted after it expires.
pub const JWT_CLOCK_SKEW_SECONDS: u64 = 60;

/// The SHA-256 digest of some bytes.
pub uninterp spec fn sha256_digest(data: Seq<u8>) -> Seq<u8>;

/// The HMAC-SHA256 tag of a message under a key.
pub uninterp spec fn hmac_sha256_tag(key: Seq<u8>, msg: Seq<u8>) -> Seq<u8>;

/// The entries of a JSON object held in bytes: the text must be UTF-8 and
/// an object.
pub open spec fn json_object_bytes(bytes: Seq<u8>) -> Result<Seq<(Seq<char>, Seq<char>)>, Seq<char>> {
    if !valid_utf8(bytes) {
        Err("invalid UTF-8 in JSON"@)
    } else {
        match json_object_entries(decode_utf8(bytes)) {
            Err(m) => Err(m),
            Ok(None) => Err("expected a JSON object"@),
            Ok(Some(es)) => Ok(es),
        }
    }
}

/// What reading a token header as JSON gives: its `alg` string, or the
/// reason it could not be read. The header may be written as an object with
/// an `alg` string, or as an array holding just that string.
pub open spec fn json_header_alg(bytes: Seq<u8>) -> Result<Seq<char>, Seq<char>> {
    if !valid_utf8(bytes) {
        Err("invalid UTF-8 in JSON"@)
    } else {
        let text = decode_utf8(bytes);
        match json_object_entries(text) {
            Err(m) => Err(m),
            Ok(Some(es)) => field_string(es, "alg"@),
            Ok(None) => match json_array_items(text) {
                None => Err("expected a JSON object or array"@),
                Some(items) => if items.len() == 1 {
                    match json_string_value(items[0]) {
                        Some(a) => Ok(a),
                        None => Err(invalid_field("alg"@)),
                    }
                } else {
                    Err("invalid length: the header array must hold one element"@)
                },
            },
        }
    }
}

/// What reading a token payload as JSON gives: its `iss` and `sub` strings
/// and `exp` number, which must all be present, or the reason they could not
/// be read.
pub open spec fn json_claims(bytes: Seq<u8>) -> Result<(Seq<char>, Seq<char>, u64), Seq<char>> {
    match json_object_bytes(bytes) {
        Err(m) => Err(m),
        Ok(es) => match field_string(es, "iss"@) {
            Err(m) => Err(m),
            Ok(iss) => match field_string(es, "sub"@) {
                Err(m) => Err(m),
                Ok(sub) => match field_u64(es, "exp"@) {
                    Err(m) => Err(m),
                    Ok(exp) => Ok((iss, sub, exp)),
                },
            },
        },
    }
}

/// `sha2::Sha256::digest`: the digest is named, not described.
#[verifier::external_body]
fn sha256(data: &[u8]) -> (r: Vec<u8>)
    ensures
        r@ == sha256_digest(data@),
{
    Sha256::digest(data).to_vec()
}

/// `Hmac::<Sha256>::new_from_slice`, `update` and `verify_slice`: true
/// exactly when `tag` is the tag of `msg` under `key`. HMAC takes keys of any
/// length, so building the MAC does not fail.
#[verifier::external_body]
fn hmac_sha256_verify(key: &[u8], msg: &[u8], tag: &[u8]) -> (ok: bool)
    ensures
        ok == (tag@ == hmac_sha256_tag(key@, msg@)),
{
    match Hmac::<Sha256>::new_from_slice(key) {
        Ok(mut mac) => {
            mac.update(msg);
            mac.verify_slice(tag).is_ok()
        },
        Err(_) => false,
    }
}

/// The entries of the JSON object held in `bytes`.
fn object_from_bytes(bytes: &[u8]) -> (r: Result<Vec<(String, String)>, String>)
    ensures
        match (r, json_object_bytes(bytes@)) {
            (Ok(v), Ok(e)) => entries_view(v@) == e,
            (Err(m), Err(n)) => m@ == n,
            _ => false,
        },
{
    let text = match utf8_decode(bytes) {
        Some(t) => t,
        None => return Err(owned("invalid UTF-8 in JSON")),
    };
    match parse_object(text.as_str()) {
        Err(m) => Err(m),
        Ok(None) => Err(owned("expected a JSON object")),
        Ok(Some(es)) => Ok(es),
    }
}

/// A token header's `alg`.
fn header_alg(bytes: &[u8]) -> (r: Result<String, String>)
    ensures
        match (r, json_header_alg(bytes@)) {
            (Ok(a), Ok(b)) => a@ == b,
            (Err(m), Err(n)) => m@ == n,
            _ => false,
        },
{
    let text = match utf8_decode(bytes) {
        Some(t) => t,
        None => return Err(owned("invalid UTF-8 in JSON")),
    };
    match parse_object(text.as_str()) {
        Err(m) => Err(m),
        Ok(Some(es)) => get_string(&es, "alg"),
        Ok(None) => match array_items(text.as_str()) {
            None => Err(owned("expected a JSON object or array")),
            Some(items) => if items.len() == 1 {
                match string_value(items[0].as_str()) {
                    Some(a) => Ok(a),
                    None => Err(invalid_field_text("alg")),
                }
            } else {
                Err(owned("invalid length: the header array must hold one element"))
            },
        },
    }
}

/// A token payload's `iss`, `sub` and `exp`.
fn payload_claims(bytes: &[u8]) -> (r: Result<(String, String, u64), String>)
    ensures
        match (r, json_claims(bytes@)) {
            (Ok(a), Ok(b)) => a.0@ == b.0 && a.1@ == b.1 && a.2 == b.2,
            (Err(m), Err(n)) => m@ == n,
            _ => false,
        },
{
    let es = object_from_bytes(bytes)?;
    let iss = get_string(&es, "iss")?;
    let sub = get_string(&es, "sub")?;
    let exp = get_u64(&es, "exp")?;
    Ok((iss, sub, exp))
}

/// The claims of a verified token that the library checks.
#[derive(Clone, Debug)]
pub struct SpeechEngineAuthorizationClaims {
    pub iss: String,
    pub sub: String,
    pub exp: u64,
    /// The decoded payload, for the claims the library does not read.
    pub payload: Vec<u8>,
}

/// `exp + JWT_CLOCK_SKEW_SECONDS`, saturating at `u64::MAX`.
pub open spec fn expiry_with_skew(exp: u64) -> int {
    if exp + JWT_CLOCK_SKEW_SECONDS > u64::MAX {
        u64::MAX as int
    } else {
        exp + JWT_CLOCK_SKEW_SECONDS
    }
}

/// Why claims are refused, if they are: a wrong issuer, a wrong subject, or
/// an expiry (with the allowed skew) before `now`.
pub open spec fn claims_error(iss: Seq<char>, sub: Seq<char>, exp: u64, now: u64) -> Option<Seq<char>> {
    if iss != JWT_ISSUER@ {
        Some("invalid speech engine JWT issuer: "@ + iss)
    } else if sub != JWT_SUBJECT@ {
        Some("invalid speech engine JWT subject: "@ + sub)
    } else if expiry_with_skew(exp) < now {
        Some("speech engine JWT has expired"@)
    } else {
        None
    }
}

/// Checks the issuer, the subject and the expiry of a token at the time
/// `now`, in seconds since the Unix epoch.
pub fn validate_claims(iss: &str, sub: &str, exp: u64, now: u64) -> (r: Result<(), Error>)
    ensures
        match claims_error(iss@, sub@, exp, now) {
            None => r is Ok,
            Some(m) => r matches Err(Error::InvalidInput(e)) && e@ == m,
        },
{
    if !str_eq(iss, JWT_ISSUER) {
        return Err(Error::InvalidInput(concat2("invalid speech engine JWT issuer: ", iss)));
    }
    if !str_eq(sub, JWT_SUBJECT) {
        return Err(Error::InvalidInput(concat2("invalid speech engine JWT subject: ", sub)));
    }
    let deadline = exp.saturating_add(JWT_CLOCK_SKEW_SECONDS);
    if deadline < now {
        return Err(Error::InvalidInput(owned("speech engine JWT has expired")));
    }
    Ok(())
}

/// The token without surrounding whitespace and without a `Bearer ` prefix.
pub open spec fn bearer_stripped(t: Seq<char>) -> Seq<char> {
    let s = trim(t);
    if starts_with(s, "Bearer "@) {
        s.skip("Bearer "@.len() as int)
    } else {
        s
    }
}

/// The three `.`-separated segments of a token, or why there are not three.
pub open spec fn jwt_segments_spec(token: Seq<char>) -> Result<(Seq<char>, Seq<char>, Seq<char>), Seq<char>> {
    let parts = split_char(bearer_stripped(token), '.');
    if parts.len() < 2 {
        Err("speech engine JWT is missing payload"@)
    } else if parts.len() < 3 {
        Err("speech engine JWT is missing signature"@)
    } else if parts.len() > 3 {
        Err("speech engine JWT has too many segments"@)
    } else {
        Ok((parts[0], parts[1], parts[2]))
    }
}

/// Splits a token into its header, payload and signature segments.
#[verifier::rlimit(50)]
pub fn jwt_segments(token: &str) -> (r: Result<(String, String, String), Error>)
    ensures
        match jwt_segments_spec(token@) {
            Ok((h, p, s)) => r matches Ok(t) && t.0@ == h && t.1@ == p && t.2@ == s,
            Err(m) => r matches Err(Error::InvalidInput(e)) && e@ == m,
        },
{
    let v = chars_of(token);
    let (a0, b) = trim_range(v.as_slice(), 0, v.len());
    assert(v@.subrange(0, v@.len() as int) =~= v@);
    let ghost t = v@.subrange(a0 as int, b as int);
    let bearer = chars_of("Bearer ");
    let has_bearer = bearer.len() <= b - a0 && chars_at(v.as_slice(), bearer.as_slice(), a0);
    proof {
        if bearer@.len() <= t.len() {
            assert(t.subrange(0, bearer@.len() as int) =~= v@.subrange(a0 as int, a0 + bearer@.len()));
        }
    }
    assert(has_bearer == starts_with(t, "Bearer "@));
    let a = if has_bearer {
        a0 + bearer.len()
    } else {
        a0
    };
    let ghost s = v@.subrange(a as int, b as int);
    assert(s =~= bearer_stripped(token@));
    let i1 = next_char(v.as_slice(), '.', a, b);
    if i1 == b {
        return Err(Error::InvalidInput(owned("speech engine JWT is missing payload")));
    }
    let ghost s1 = v@.subrange(i1 + 1, b as int);
    assert(s.take(i1 - a) =~= v@.subrange(a as int, i1 as int));
    assert(s.skip(i1 - a + 1) =~= s1);
    assert(split_char(s, '.') == seq![s.take(i1 - a)] + split_char(s1, '.'));
    let i2 = next_char(v.as_slice(), '.', i1 + 1, b);
    if i2 == b {
        assert(split_char(s1, '.') == seq![s1]);
        return Err(Error::InvalidInput(owned("speech engine JWT is missing signature")));
    }
    let ghost s2 = v@.subrange(i2 + 1, b as int);
    assert(s1.take(i2 - i1 - 1) =~= v@.subrange(i1 + 1, i2 as int));
    assert(s1.skip(i2 - i1) =~= s2);
    assert(split_char(s1, '.') == seq![s1.take(i2 - i1 - 1)] + split_char(s2, '.'));
    let i3 = next_char(v.as_slice(), '.', i2 + 1, b);
    if i3 < b {
        let ghost s3 = s2.skip(i3 - i2);
        assert(split_char(s2, '.') == seq![s2.take(i3 - i2 - 1)] + split_char(s3, '.'));
        assert(split_char(s3, '.').len() >= 1);
        return Err(Error::InvalidInput(owned("speech engine JWT has too many segments")));
    }
    assert(split_char(s2, '.') == seq![s2]);
    let header = string_from(v.as_slice(), a, i1);
    let payload = string_from(v.as_slice(), i1 + 1, i2);
    let signature = string_from(v.as_slice(), i2 + 1, b);
    Ok((header, payload, signature))
}

/// Why a token is refused, as the contract describes errors.
pub enum JwtFailure {
    /// An `InvalidInput` error with this message.
    Invalid(Seq<char>),
    /// A segment is not URL-safe base64.
    Base64,
    /// A segment is not the JSON expected, for this reason.
    Json(Seq<char>),
}

/// The bytes that are signed: the header and payload segments joined by `.`.
pub open spec fn signing_input(h: Seq<char>, p: Seq<char>) -> Seq<u8> {
    encode_utf8(h + "."@ + p)
}

/// The HMAC key: the SHA-256 digest of the API key.
pub open spec fn signing_key(api_key: Seq<char>) -> Seq<u8> {
    sha256_digest(encode_utf8(api_key))
}

/// What verifying a token gives at the time `now`: the checked claims and the
/// decoded payload, or why the token is refused. The steps come in this
/// order: segments, header decoding, header JSON, algorithm, signature
/// decoding, signature check, payload decoding, payload JSON, claims.
pub open spec fn verify_spec(token: Seq<char>, api_key: Seq<char>, now: u64) -> Result<
    (Seq<char>, Seq<char>, u64, Seq<u8>),
    JwtFailure,
> {
    match jwt_segments_spec(token) {
        Err(m) => Err(JwtFailure::Invalid(m)),
        Ok((h, p, s)) => match base64url_decoding(h) {
            None => Err(JwtFailure::Base64),
            Some(hb) => match json_header_alg(hb) {
                Err(m) => Err(JwtFailure::Json(m)),
                Ok(alg) => if alg != "HS256"@ {
                    Err(JwtFailure::Invalid("unsupported speech engine JWT alg: "@ + alg))
                } else {
                    match base64url_decoding(s) {
                        None => Err(JwtFailure::Base64),
                        Some(sig) => if sig != hmac_sha256_tag(signing_key(api_key), signing_input(h, p)) {
                            Err(JwtFailure::Invalid("speech engine JWT signature is invalid"@))
                        } else {
                            match base64url_decoding(p) {
                                None => Err(JwtFailure::Base64),
                                Some(pb) => match json_claims(pb) {
                                    Err(m) => Err(JwtFailure::Json(m)),
                                    Ok((iss, sub, exp)) => match claims_error(iss, sub, exp, now) {
                                        Some(m) => Err(JwtFailure::Invalid(m)),
                                        None => Ok((iss, sub, exp, pb)),
                                    },
                                },
                            }
                        },
                    }
                },
            },
        },
    }
}

/// Verifies the authorization token of an upstream connection at the time
/// `now` (seconds since the Unix epoch): an HS256 token signed with the
/// SHA-256 digest of the API key, issued to the speech engine upstream, and
/// not expired.
pub fn verify_authorization_token(token: &str, api_key: &str, now: u64) -> (r: Result<
    SpeechEngineAuthorizationClaims,
    Error,
>)
    ensures
        match verify_spec(token@, api_key@, now) {
            Ok((iss, sub, exp, pb)) => r matches Ok(c) && c.iss@ == iss && c.sub@ == sub && c.exp
                == exp && c.payload@ == pb,
            Err(JwtFailure::Invalid(m)) => r matches Err(Error::InvalidInput(e)) && e@ == m,
            Err(JwtFailure::Base64) => r matches Err(Error::Base64DecodeError),
            Err(JwtFailure::Json(m)) => r matches Err(Error::JsonError(e)) && e@ == m,
        },
{
    let (header, payload, signature) = jwt_segments(token)?;
    let header_bytes = match base64url_decode(header.as_str()) {
        Some(b) => b,
        None => return Err(Error::Base64DecodeError),
    };
    let alg = match header_alg(header_bytes.as_slice()) {
        Ok(a) => a,
        Err(m) => return Err(Error::JsonError(m)),
    };
    if !str_eq(alg.as_str(), "HS256") {
        return Err(Error::InvalidInput(concat2("unsupported speech engine JWT alg: ", alg.as_str())));
    }
    let mut input = concat2(header.as_str(), ".");
    crate::text::append_str(&mut input, payload.as_str());
    let key = sha256(api_key.as_bytes());
    let sig = match base64url_decode(signature.as_str()) {
        Some(b) => b,
        None => return Err(Error::Base64DecodeError),
    };
    if !hmac_sha256_verify(key.as_slice(), input.as_str().as_bytes(), sig.as_slice()) {
        return Err(Error::InvalidInput(owned("speech engine JWT signature is invalid")));
    }
    let payload_bytes = match base64url_decode(payload.as_str()) {
        Some(b) => b,
        None => return Err(Error::Base64DecodeError),
    };
    let (iss, sub, exp) = match payload_claims(payload_bytes.as_slice()) {
        Ok(c) => c,
        Err(m) => return Err(Error::JsonError(m)),
    };
    validate_claims(iss.as_str(), sub.as_str(), exp, now)?;
    Ok(SpeechEngineAuthorizationClaims { iss, sub, exp, payload: payload_bytes })
}

/// A token is accepted only when its third segment decodes to the HMAC-SHA256
/// tag of its first two segments, keyed by the SHA-256 digest of the API key,
/// and its claims name the speech engine issuer and upstream subject and have
/// not expired at `now`, allowing the clock skew.
pub proof fn lemma_accepted_token_is_authentic(token: Seq<char>, api_key: Seq<char>, now: u64)
    requires
        verify_spec(token, api_key, now) is Ok,
    ensures
        jwt_segments_spec(token) is Ok,
        ({
            let (h, p, s) = jwt_segments_spec(token)->Ok_0;
            base64url_decoding(s) == Some(hmac_sha256_tag(signing_key(api_key), signing_input(h, p)))
        }),
        ({
            let (iss, sub, exp, _) = verify_spec(token, api_key, now)->Ok_0;
            iss == JWT_ISSUER@ && sub == JWT_SUBJECT@ && now <= expiry_with_skew(exp)
        }),
{
}

/// A token accepted at some time is accepted, with the same claims, at every
/// earlier time.
pub proof fn lemma_accepted_earlier(token: Seq<char>, api_key: Seq<char>, now: u64, earlier: u64)
    requires
        verify_spec(token, api_key, now) is Ok,
        earlier <= now,
    ensures
        verify_spec(token, api_key, earlier) == verify_spec(token, api_key, now),
{
}

// ---------------------------------------------------------------------------
// Speech engine resources
// ---------------------------------------------------------------------------

/// Query parameters for [`ListSpeechEngines`].
#[derive(Clone, Debug)]
pub struct ListSpeechEnginesQuery {
    pub params: QueryValues,
}

impl Default for ListSpeechEnginesQuery {
    fn default() -> (r: Self)
        ensures
            r.params@.len() == 0,
    {
        ListSpeechEnginesQuery { params: Vec::new() }
    }
}

impl ListSpeechEnginesQuery {
    pub fn with_page_size(self, page_size: u32) -> (r: Self)
        ensures
            query_view(r.params@) == query_view(self.params@).push(("page_size"@, decimal(page_size as nat))),
    {
        let mut s = self;
        push_query(&mut s.params, "page_size", u64_to_string(page_size as u64));
        s
    }
    pub fn with_search(self, search: &str) -> (r: Self)
        ensures
            query_view(r.params@) == query_view(self.params@).push(("search"@, search@)),
    {
        let mut s = self;
        push_query(&mut s.params, "search", owned(search));
        s
    }
    pub fn with_sort_direction(self, sort_direction: &str) -> (r: Self)
        ensures
            query_view(r.params@) == query_view(self.params@).push(("sort_direction"@, sort_direction@)),
    {
        let mut s = self;
        push_query(&mut s.params, "sort_direction", owned(sort_direction));
        s
    }
    pub fn with_sort_by(self, sort_by: &str) -> (r: Self)
        ensures
            query_view(r.params@) == query_view(self.params@).push(("sort_by"@, sort_by@)),
    {
        let mut s = self;
        push_query(&mut s.params, "sort_by", owned(sort_by));
        s
    }
    pub fn with_cursor(self, cursor: &str) -> (r: Self)
        ensures
            query_view(r.params@) == query_view(self.params@).push(("cursor"@, cursor@)),
    {
        let mut s = self;
        push_query(&mut s.params, "cursor", owned(cursor));
        s
    }
}

/// Lists speech engines.
#[derive(Clone, Debug)]
pub struct ListSpeechEngines {
    pub query: Option<ListSpeechEnginesQuery>,
}

impl Default for ListSpeechEngines {
    fn default() -> (r: Self)
        ensures
            r.query is None,
    {
        ListSpeechEngines { query: None }
    }
}

impl ListSpeechEngines {
    pub fn new() -> (r: Self)
        ensures
            r.query is None,
    {
        ListSpeechEngines { query: None }
    }

    /// A listing with the given query.
    pub fn with_query(query: ListSpeechEnginesQuery) -> (r: Self)
        ensures
            r.query == Some(query),
    {
        ListSpeechEngines { query: Some(query) }
    }
}

impl ElevenLabsEndpoint for ListSpeechEngines {
    fn path(&self) -> (p: &'static str)
        ensures
            p@ == "/v1/speech-engine"@,
    {
        "/v1/speech-engine"
    }

    fn method(&self) -> (m: HttpMethod)
        ensures
            m == HttpMethod::Get,
    {
        HttpMethod::Get
    }

    fn query_params(&self) -> (r: Option<QueryValues>)
        ensures
            opt_query_view(r) == match self.query {
                Some(q) => Some(query_view(q.params@)),
                None => None::<Seq<(Seq<char>, Seq<char>)>>,
            },
    {
        match &self.query {
            Some(q) => Some(clone_query(&q.params)),
            None => None,
        }
    }

    fn path_params(&self) -> (r: Vec<(&'static str, String)>)
        ensures
            r@.len() == 0,
    {
        Vec::new()
    }
}

/// Retrieves a speech engine.
#[derive(Clone, Debug)]
pub struct GetSpeechEngine {
    pub speech_engine_id: String,
}

impl GetSpeechEngine {
    pub fn new(speech_engine_id: &str) -> (r: Self)
        ensures
            r.speech_engine_id@ == speech_engine_id@,
    {
        GetSpeechEngine { speech_engine_id: owned(speech_engine_id) }
    }
}

impl ElevenLabsEndpoint for GetSpeechEngine {
    fn path(&self) -> (p: &'static str)
        ensures
            p@ == "/v1/speech-engine/:speech_engine_id"@,
    {
        "/v1/speech-engine/:speech_engine_id"
    }

    fn method(&self) -> (m: HttpMethod)
        ensures
            m == HttpMethod::Get,
    {
        HttpMethod::Get
    }

    fn query_params(&self) -> (r: Option<QueryValues>)
        ensures
            r is None,
    {
        None
    }

    fn path_params(&self) -> (r: Vec<(&'static str, String)>)
        ensures
            r@.len() == 1,
            r@[0].0@ == ":speech_engine_id"@ && r@[0].1@ == self.speech_engine_id@,
    {
        let mut v: Vec<(&'static str, String)> = Vec::new();
        v.push((":speech_engine_id", self.speech_engine_id.clone()));
        v
    }
}

/// Deletes a speech engine.
#[derive(Clone, Debug)]
pub struct DeleteSpeechEngine {
    pub speech_engine_id: String,
}

impl DeleteSpeechEngine {
    pub fn new(speech_engine_id: &str) -> (r: Self)
        ensures
            r.speech_engine_id@ == speech_engine_id@,
    {
        DeleteSpeechEngine { speech_engine_id: owned(speech_engine_id) }
    }
}

impl ElevenLabsEndpoint for DeleteSpeechEngine {
    fn path(&self) -> (p: &'static str)
        ensures
            p@ == "/v1/speech-engine/:speech_engine_id"@,
    {
        "/v1/speech-engine/:speech_engine_id"
    }

    fn method(&self) -> (m: HttpMethod)
        ensures
            m == HttpMethod::Delete,
    {
        HttpMethod::Delete
    }

    fn query_params(&self) -> (r: Option<QueryValues>)
        ensures
            r is None,
    {
        None
    }

    fn path_params(&self) -> (r: Vec<(&'static str, String)>)
        ensures
            r@.len() == 1,
            r@[0].0@ == ":speech_engine_id"@ && r@[0].1@ == self.speech_engine_id@,
    {
        let mut v: Vec<(&'static str, String)> = Vec::new();
        v.push((":speech_engine_id", self.speech_engine_id.clone()));
        v
    }
}

/// An audio tag suggested to the voice model.
#[derive(Clone, Debug)]
pub struct SpeechEngineSuggestedAudioTag {
    pub tag: String,
    pub description: Option<String>,
}

impl SpeechEngineSuggestedAudioTag {
    pub fn new(tag: &str) -> (r: Self)
        ensures
            r.tag@ == tag@,
            r.description is None,
    {
        SpeechEngineSuggestedAudioTag { tag: owned(tag), description: None }
    }

    pub fn with_description(self, description: &str) -> (r: Self)
        ensures
            r.description matches Some(s) && s@ == description@,
            r == (Self { description: r.description, ..self }),
    {
        Self { description: Some(owned(description)), ..self }
    }
}

/// A pronunciation dictionary for a speech engine, at a version or the latest.
#[derive(Clone, Debug)]
pub struct SpeechEngineDictionaryLocator {
    pub pronunciation_dictionary_id: String,
    pub version_id: Option<String>,
}

impl SpeechEngineDictionaryLocator {
    pub fn new(pronunciation_dictionary_id: &str, version_id: &str) -> (r: Self)
        ensures
            r.pronunciation_dictionary_id@ == pronunciation_dictionary_id@,
            r.version_id matches Some(v) && v@ == version_id@,
    {
        SpeechEngineDictionaryLocator {
            pronunciation_dictionary_id: owned(pronunciation_dictionary_id),
            version_id: Some(owned(version_id)),
        }
    }

    pub fn without_version(pronunciation_dictionary_id: &str) -> (r: Self)
        ensures
            r.pronunciation_dictionary_id@ == pronunciation_dictionary_id@,
            r.version_id is None,
    {
        SpeechEngineDictionaryLocator {
            pronunciation_dictionary_id: owned(pronunciation_dictionary_id),
            version_id: None,
        }
    }
}

// ---------------------------------------------------------------------------
// Upstream session
// ---------------------------------------------------------------------------

/// The label of the upstream endpoint in diagnostics.
pub const ENDPOINT_NAME: &'static str = "speech_engine.upstream";

/// What arrives on an upstream connection.
#[derive(Clone, Copy, Debug, PartialEq, Eq, Structural)]
pub enum UpstreamFrame {
    Text,
    Binary,
    Ping,
    Pong,
    Close,
    Frame,
    /// The connection ended without a close frame.
    End,
}

/// What the session does with a frame.
#[derive(Clone, Copy, Debug, PartialEq, Eq, Structural)]
pub enum UpstreamAction {
    /// Decode the text as an inbound message and return it.
    Decode,
    /// Answer with a pong carrying the same payload, then read on.
    SendPong,
    /// Read on.
    Skip,
    /// The conversation is over: return no message.
    Finished,
}

/// A speech engine upstream connection: the socket and whether it closed.
#[derive(Debug)]
pub struct SpeechEngineUpstreamSession<S> {
    pub socket: S,
    pub closed: bool,
}

impl<S> SpeechEngineUpstreamSession<S> {
    pub fn new(socket: S) -> (r: Self)
        ensures
            r.socket == socket,
            !r.closed,
    {
        SpeechEngineUpstreamSession { socket, closed: false }
    }

    pub fn is_closed(&self) -> (b: bool)
        ensures
            b == self.closed,
    {
        self.closed
    }

    /// The socket.
    pub fn into_inner(self) -> (s: S)
        ensures
            s == self.socket,
    {
        self.socket
    }

    /// Marks the session closed, after a close frame was sent.
    pub fn mark_closed(&mut self)
        ensures
            final(self).closed,
            final(self).socket == old(self).socket,
    {
        self.closed = true;
    }

    /// Decides what to do with a frame. Text is decoded, pings are answered,
    /// pongs skipped; a close frame or the end of the connection closes the
    /// session; binary and raw frames are protocol errors.
    pub fn on_frame(&mut self, frame: UpstreamFrame) -> (r: Result<UpstreamAction, Error>)
        ensures
            final(self).socket == old(self).socket,
            final(self).closed == (old(self).closed || frame == UpstreamFrame::Close || frame
                == UpstreamFrame::End),
            frame == UpstreamFrame::Text ==> r == Ok::<UpstreamAction, Error>(UpstreamAction::Decode),
            frame == UpstreamFrame::Ping ==> r == Ok::<UpstreamAction, Error>(UpstreamAction::SendPong),
            frame == UpstreamFrame::Pong ==> r == Ok::<UpstreamAction, Error>(UpstreamAction::Skip),
            frame == UpstreamFrame::Close || frame == UpstreamFrame::End ==> r == Ok::<
                UpstreamAction,
                Error,
            >(UpstreamAction::Finished),
            frame == UpstreamFrame::Binary ==> unexpected_frame(r, "binary"@),
            frame == UpstreamFrame::Frame ==> unexpected_frame(r, "frame"@),
    {
        match frame {
            UpstreamFrame::Text => Ok(UpstreamAction::Decode),
            UpstreamFrame::Ping => Ok(UpstreamAction::SendPong),
            UpstreamFrame::Pong => Ok(UpstreamAction::Skip),
            UpstreamFrame::Close | UpstreamFrame::End => {
                self.closed = true;
                Ok(UpstreamAction::Finished)
            },
            UpstreamFrame::Binary => Err(unexpected("binary")),
            UpstreamFrame::Frame => Err(unexpected("frame")),
        }
    }
}

/// Whether `r` is the protocol error for an unexpected frame of kind `kind`.
pub open spec fn unexpected_frame(r: Result<UpstreamAction, Error>, kind: Seq<char>) -> bool {
    r matches Err(Error::WebSocketError(WebSocketError::UnexpectedFrame { context, expected, received }))
        && context.endpoint@ == ENDPOINT_NAME@ && context.direction == WebSocketDirection::Inbound
        && expected@ == "text or close"@ && received@ == kind
}

fn unexpected(received: &'static str) -> (e: Error)
    ensures
        unexpected_frame(Err(e), received@),
{
    Error::WebSocketError(
        WebSocketError::UnexpectedFrame {
            context: WebSocketErrorContext::new(ENDPOINT_NAME, WebSocketDirection::Inbound),
            expected: "text or close",
            received,
        },
    )
}

// ---------------------------------------------------------------------------
// Upstream messages
// ---------------------------------------------------------------------------

/// The kinds of inbound upstream messages, by their `type`.
#[derive(Clone, Copy, Debug, PartialEq, Eq, Structural)]
pub enum SpeechEngineInboundKind {
    Init,
    UserTranscript,
    Ping,
    Close,
    Error,
    /// A type this crate does not model.
    Unknown,
}

pub open spec fn inbound_kind_of(t: Seq<char>) -> SpeechEngineInboundKind {
    if t == "init"@ {
        SpeechEngineInboundKind::Init
    } else if t == "user_transcript"@ {
        SpeechEngineInboundKind::UserTranscript
    } else if t == "ping"@ {
        SpeechEngineInboundKind::Ping
    } else if t == "close"@ {
        SpeechEngineInboundKind::Close
    } else if t == "error"@ {
        SpeechEngineInboundKind::Error
    } else {
        SpeechEngineInboundKind::Unknown
    }
}

pub open spec fn inbound_kind_name(k: SpeechEngineInboundKind) -> Seq<char> {
    match k {
        SpeechEngineInboundKind::Init => "init"@,
        SpeechEngineInboundKind::UserTranscript => "user_transcript"@,
        SpeechEngineInboundKind::Ping => "ping"@,
        SpeechEngineInboundKind::Close => "close"@,
        SpeechEngineInboundKind::Error => "error"@,
        SpeechEngineInboundKind::Unknown => seq![],
    }
}

impl SpeechEngineInboundKind {
    /// The kind a `type` names.
    pub fn from_type(t: &str) -> (k: Self)
        ensures
            k == inbound_kind_of(t@),
    {
        if str_eq(t, "init") {
            SpeechEngineInboundKind::Init
        } else if str_eq(t, "user_transcript") {
            SpeechEngineInboundKind::UserTranscript
        } else if str_eq(t, "ping") {
            SpeechEngineInboundKind::Ping
        } else if str_eq(t, "close") {
            SpeechEngineInboundKind::Close
        } else if str_eq(t, "error") {
            SpeechEngineInboundKind::Error
        } else {
            SpeechEngineInboundKind::Unknown
        }
    }

    /// The `type` of a known kind; `None` for an unknown one, whose message
    /// keeps its own.
    pub fn message_type(self) -> (r: Option<&'static str>)
        ensures
            self == SpeechEngineInboundKind::Unknown <==> r is None,
            r matches Some(s) ==> s@ == inbound_kind_name(self),
    {
        match self {
            SpeechEngineInboundKind::Init => Some("init"),
            SpeechEngineInboundKind::UserTranscript => Some("user_transcript"),
            SpeechEngineInboundKind::Ping => Some("ping"),
            SpeechEngineInboundKind::Close => Some("close"),
            SpeechEngineInboundKind::Error => Some("error"),
            SpeechEngineInboundKind::Unknown => None,
        }
    }
}

/// Reading back the `type` of a known inbound kind gives the same kind.
pub proof fn lemma_inbound_kind_round_trip(k: SpeechEngineInboundKind)
    ensures
        k != SpeechEngineInboundKind::Unknown ==> inbound_kind_of(inbound_kind_name(k)) == k,
{
    reveal_strlit("init");
    reveal_strlit("user_transcript");
    reveal_strlit("ping");
    reveal_strlit("close");
    reveal_strlit("error");
    assert("init"@.len() == 4);
    assert("user_transcript"@.len() == 15);
    assert("ping"@.len() == 4);
    assert("close"@.len() == 5);
    assert("error"@.len() == 5);
    assert("ping"@[0] != "init"@[0]);
    assert("error"@[0] != "close"@[0]);
}

/// One message of a transcript, by role.
#[derive(Clone, Debug)]
pub struct SpeechEngineTranscriptMessage {
    pub role: String,
    pub content: String,
    /// The other fields, as a JSON object.
    pub extra: String,
}

impl SpeechEngineTranscriptMessage {
    pub fn user(content: &str) -> (r: Self)
        ensures
            r.role@ == "user"@,
            r.content@ == content@,
            r.extra@ == "{}"@,
    {
        SpeechEngineTranscriptMessage { role: owned("user"), content: owned(content), extra: owned("{}") }
    }

    pub fn agent(content: &str) -> (r: Self)
        ensures
            r.role@ == "agent"@,
            r.content@ == content@,
            r.extra@ == "{}"@,
    {
        SpeechEngineTranscriptMessage { role: owned("agent"), content: owned(content), extra: owned("{}") }
    }
}

/// A message the upstream sends back.
#[derive(Clone, Debug)]
pub enum SpeechEngineOutboundMessage {
    AgentResponse { content: String, event_id: Option<u64>, is_final: bool },
    Pong,
}

impl SpeechEngineOutboundMessage {
    /// A part of the agent's answer to the event `event_id`.
    pub fn agent_response(event_id: u64, content: &str) -> (r: Self)
        ensures
            r matches SpeechEngineOutboundMessage::AgentResponse { content: c, event_id: e, is_final: f }
                && c@ == content@ && e == Some(event_id) && !f,
    {
        SpeechEngineOutboundMessage::AgentResponse {
            content: owned(content),
            event_id: Some(event_id),
            is_final: false,
        }
    }

    /// A part of the agent's answer that names no event.
    pub fn agent_response_without_event_id(content: &str, is_final: bool) -> (r: Self)
        ensures
            r matches SpeechEngineOutboundMessage::AgentResponse { content: c, event_id: e, is_final: f }
                && c@ == content@ && e is None && f == is_final,
    {
        SpeechEngineOutboundMessage::AgentResponse { content: owned(content), event_id: None, is_final }
    }

    /// The empty last part of the answer to the event `event_id`.
    pub fn final_agent_response(event_id: u64) -> (r: Self)
        ensures
            r matches SpeechEngineOutboundMessage::AgentResponse { content: c, event_id: e, is_final: f }
                && c@ == Seq::<char>::empty() && e == Some(event_id) && f,
    {
        SpeechEngineOutboundMessage::AgentResponse {
            content: String::new(),
            event_id: Some(event_id),
            is_final: true,
        }
    }

    pub fn pong() -> (r: Self)
        ensures
            r is Pong,
    {
        SpeechEngineOutboundMessage::Pong
    }
}

} // verus!

verus! {

/// An inbound upstream message. The fields the library does not read are
/// kept as a JSON object in `extra`.
#[derive(Clone, Debug)]
pub enum SpeechEngineInboundMessage {
    Init { conversation_id: String, extra: String },
    UserTranscript {
        user_transcript: Vec<SpeechEngineTranscriptMessage>,
        event_id: Option<u64>,
        extra: String,
    },
    Ping,
    Close,
    Error { message: String, extra: String },
    /// A message of a type this crate does not model: its type, and the
    /// rest of the message, without `type`, as a JSON object.
    Unknown { message_type: String, payload: String },
}

/// The `type` a message was sent with.
pub open spec fn inbound_message_type(m: SpeechEngineInboundMessage) -> Seq<char> {
    match m {
        SpeechEngineInboundMessage::Init { .. } => "init"@,
        SpeechEngineInboundMessage::UserTranscript { .. } => "user_transcript"@,
        SpeechEngineInboundMessage::Ping => "ping"@,
        SpeechEngineInboundMessage::Close => "close"@,
        SpeechEngineInboundMessage::Error { .. } => "error"@,
        SpeechEngineInboundMessage::Unknown { message_type, .. } => message_type@,
    }
}

impl SpeechEngineInboundMessage {
    /// The `type` of this message.
    pub fn message_type(&self) -> (s: &str)
        ensures
            s@ == inbound_message_type(*self),
    {
        match self {
            SpeechEngineInboundMessage::Init { .. } => "init",
            SpeechEngineInboundMessage::UserTranscript { .. } => "user_transcript",
            SpeechEngineInboundMessage::Ping => "ping",
            SpeechEngineInboundMessage::Close => "close",
            SpeechEngineInboundMessage::Error { .. } => "error",
            SpeechEngineInboundMessage::Unknown { message_type, .. } => message_type.as_str(),
        }
    }

    /// The conversation of an `init` message.
    pub fn conversation_id(&self) -> (r: Option<&str>)
        ensures
            match *self {
                SpeechEngineInboundMessage::Init { conversation_id, .. } => r matches Some(s) && s@
                    == conversation_id@,
                _ => r is None,
            },
    {
        match self {
            SpeechEngineInboundMessage::Init { conversation_id, .. } => Some(conversation_id.as_str()),
            _ => None,
        }
    }

    /// The event of a user transcript, if it names one.
    pub fn event_id(&self) -> (r: Option<u64>)
        ensures
            match *self {
                SpeechEngineInboundMessage::UserTranscript { event_id, .. } => r == event_id,
                _ => r is None,
            },
    {
        match self {
            SpeechEngineInboundMessage::UserTranscript { event_id, .. } => *event_id,
            _ => None,
        }
    }

    /// The messages of a user transcript.
    pub fn transcript(&self) -> (r: Option<&[SpeechEngineTranscriptMessage]>)
        ensures
            match *self {
                SpeechEngineInboundMessage::UserTranscript { user_transcript, .. } => r matches Some(
                    s,
                ) && s@ == user_transcript@,
                _ => r is None,
            },
    {
        match self {
            SpeechEngineInboundMessage::UserTranscript { user_transcript, .. } => Some(
                user_transcript.as_slice(),
            ),
            _ => None,
        }
    }
}

} // verus!

verus! {

/// Creates a speech engine. The body's configuration holds floating-point
/// settings, so its type is the caller's; the endpoint carries it to be
/// serialised with the request.
#[derive(Clone, Debug)]
pub struct CreateSpeechEngine<B> {
    pub body: B,
}

impl<B> CreateSpeechEngine<B> {
    pub fn new(body: B) -> (r: Self)
        ensures
            r.body == body,
    {
        CreateSpeechEngine { body }
    }
}

impl<B> ElevenLabsEndpoint for CreateSpeechEngine<B> {
    fn path(&self) -> (p: &'static str)
        ensures
            p@ == "/v1/speech-engine"@,
    {
        "/v1/speech-engine"
    }

    fn method(&self) -> (m: HttpMethod)
        ensures
            m == HttpMethod::Post,
    {
        HttpMethod::Post
    }

    fn query_params(&self) -> (r: Option<QueryValues>)
        ensures
            r is None,
    {
        None
    }

    fn path_params(&self) -> (r: Vec<(&'static str, String)>)
        ensures
            r@.len() == 0,
    {
        Vec::new()
    }
}

/// Updates a speech engine; the body, as for creation, is the caller's type.
#[derive(Clone, Debug)]
pub struct UpdateSpeechEngine<B> {
    pub speech_engine_id: String,
    pub body: B,
}

impl<B> UpdateSpeechEngine<B> {
    pub fn new(speech_engine_id: &str, body: B) -> (r: Self)
        ensures
            r.speech_engine_id@ == speech_engine_id@,
            r.body == body,
    {
        UpdateSpeechEngine { speech_engine_id: owned(speech_engine_id), body }
    }
}

impl<B> ElevenLabsEndpoint for UpdateSpeechEngine<B> {
    fn path(&self) -> (p: &'static str)
        ensures
            p@ == "/v1/speech-engine/:speech_engine_id"@,
    {
        "/v1/speech-engine/:speech_engine_id"
    }

    fn method(&self) -> (m: HttpMethod)
        ensures
            m == HttpMethod::Patch,
    {
        HttpMethod::Patch
    }

    fn query_params(&self) -> (r: Option<QueryValues>)
        ensures
            r is None,
    {
        None
    }

    fn path_params(&self) -> (r: Vec<(&'static str, String)>)
        ensures
            r@.len() == 1,
            r@[0].0@ == ":speech_engine_id"@ && r@[0].1@ == self.speech_engine_id@,
    {
        let mut v: Vec<(&'static str, String)> = Vec::new();
        v.push((":speech_engine_id", self.speech_engine_id.clone()));
        v
    }
}

} // verus!

verus! {

/// The role, content and other fields of a transcript message.
pub open spec fn transcript_message_view(m: SpeechEngineTranscriptMessage) -> (Seq<char>, Seq<char>, Seq<char>) {
    (m.role@, m.content@, m.extra@)
}

/// What one transcript message's JSON text reads as: an object with `role`
/// and `content` strings.
pub open spec fn transcript_item(item: Seq<char>) -> Result<(Seq<char>, Seq<char>, Seq<char>), Seq<char>> {
    match object_entries(item) {
        Err(m) => Err(m),
        Ok(es) => match field_string(es, "role"@) {
            Err(m) => Err(m),
            Ok(role) => match field_string(es, "content"@) {
                Err(m) => Err(m),
                Ok(content) => Ok((role, content, rest_text(es, seq!["role"@, "content"@]))),
            },
        },
    }
}

/// What a list of transcript messages reads as; the first message that does
/// not read gives the error.
pub open spec fn transcript_items(items: Seq<Seq<char>>) -> Result<Seq<(Seq<char>, Seq<char>, Seq<char>)>, Seq<char>>
    decreases items.len(),
{
    if items.len() == 0 {
        Ok(seq![])
    } else {
        match transcript_items(items.drop_last()) {
            Err(m) => Err(m),
            Ok(ms) => match transcript_item(items.last()) {
                Err(m) => Err(m),
                Ok(x) => Ok(ms.push(x)),
            },
        }
    }
}

/// What an inbound message with `type` kind `k` and type `t` and entries
/// `es` reads as. `init`, `user_transcript` and `error` take their fields and
/// keep the others in `extra`; `ping` and `close` carry nothing; a type this
/// crate does not model keeps the whole message but its `type`.
pub open spec fn inbound_from(
    r: Result<SpeechEngineInboundMessage, Error>,
    k: SpeechEngineInboundKind,
    t: Seq<char>,
    es: Seq<(Seq<char>, Seq<char>)>,
) -> bool {
    match k {
        SpeechEngineInboundKind::Init => match field_string(es, "conversation_id"@) {
            Err(m) => json_err(r, m),
            Ok(c) => r matches Ok(SpeechEngineInboundMessage::Init { conversation_id, extra }) && conversation_id@ == c
                && extra@ == rest_text(es, seq!["conversation_id"@]),
        },
        SpeechEngineInboundKind::UserTranscript => match field_value(es, "user_transcript"@) {
            Err(m) => json_err(r, m),
            Ok(v) => match json_array_items(v) {
                None => json_err(r, invalid_field("user_transcript"@)),
                Some(items) => match transcript_items(items) {
                    Err(m) => json_err(r, m),
                    Ok(ms) => match field_opt_u64(es, "event_id"@) {
                        Err(m) => json_err(r, m),
                        Ok(id) => r matches Ok(SpeechEngineInboundMessage::UserTranscript { user_transcript, event_id, extra })
                            && user_transcript@.map_values(|m: SpeechEngineTranscriptMessage| transcript_message_view(m)) == ms
                            && event_id == id && extra@ == rest_text(es, seq!["user_transcript"@, "event_id"@]),
                    },
                },
            },
        },
        SpeechEngineInboundKind::Ping => r matches Ok(SpeechEngineInboundMessage::Ping),
        SpeechEngineInboundKind::Close => r matches Ok(SpeechEngineInboundMessage::Close),
        SpeechEngineInboundKind::Error => match field_string(es, "message"@) {
            Err(m) => json_err(r, m),
            Ok(msg) => r matches Ok(SpeechEngineInboundMessage::Error { message, extra }) && message@ == msg
                && extra@ == rest_text(es, seq!["message"@]),
        },
        SpeechEngineInboundKind::Unknown => r matches Ok(SpeechEngineInboundMessage::Unknown { message_type, payload })
            && message_type@ == t && payload@ == rest_text(es, seq!["type"@]),
    }
}

/// What an inbound message's JSON text reads as: a JSON object whose `type`,
/// which must be a string, picks the shape.
pub open spec fn inbound_parsed(r: Result<SpeechEngineInboundMessage, Error>, text: Seq<char>) -> bool {
    match object_entries(text) {
        Err(m) => json_err(r, m),
        Ok(es) => match field_string(es, "type"@) {
            Err(_) => json_err(r, missing_field("type"@)),
            Ok(t) => inbound_from(r, inbound_kind_of(t), t, es),
        },
    }
}

fn transcript_message(item: &str) -> (r: Result<SpeechEngineTranscriptMessage, String>)
    ensures
        match (r, transcript_item(item@)) {
            (Ok(m), Ok(x)) => transcript_message_view(m) == x,
            (Err(m), Err(n)) => m@ == n,
            _ => false,
        },
{
    let es = parse_entries(item)?;
    let role = get_string(&es, "role")?;
    let content = get_string(&es, "content")?;
    let extra = rest_without2(&es, "role", "content");
    Ok(SpeechEngineTranscriptMessage { role, content, extra })
}

fn transcript_messages(items: &Vec<String>) -> (r: Result<Vec<SpeechEngineTranscriptMessage>, String>)
    ensures
        match (r, transcript_items(items@.map_values(|s: String| s@))) {
            (Ok(v), Ok(x)) => v@.map_values(|m: SpeechEngineTranscriptMessage| transcript_message_view(m)) == x,
            (Err(m), Err(n)) => m@ == n,
            _ => false,
        },
{
    let ghost iv = items@.map_values(|s: String| s@);
    let mut out: Vec<SpeechEngineTranscriptMessage> = Vec::new();
    let mut i: usize = 0;
    assert(iv.take(0) =~= seq![]);
    assert(out@.map_values(|m: SpeechEngineTranscriptMessage| transcript_message_view(m)) =~= seq![]);
    while i < items.len()
        invariant
            0 <= i <= items@.len(),
            iv == items@.map_values(|s: String| s@),
            transcript_items(iv.take(i as int)) == Ok::<Seq<(Seq<char>, Seq<char>, Seq<char>)>, Seq<char>>(
                out@.map_values(|m: SpeechEngineTranscriptMessage| transcript_message_view(m)),
            ),
        decreases items.len() - i,
    {
        assert(iv.take(i + 1).drop_last() =~= iv.take(i as int));
        assert(iv.take(i + 1).last() == items@[i as int]@);
        match transcript_message(items[i].as_str()) {
            Err(m) => {
                proof {
                    lemma_transcript_items_prefix_err(iv, i + 1);
                }
                return Err(m);
            },
            Ok(msg) => {
                let ghost before = out@;
                out.push(msg);
                assert(out@.map_values(|m: SpeechEngineTranscriptMessage| transcript_message_view(m)) =~= before.map_values(
                    |m: SpeechEngineTranscriptMessage| transcript_message_view(m),
                ).push(transcript_message_view(msg)));
            },
        }
        i = i + 1;
    }
    assert(iv.take(items@.len() as int) =~= iv);
    Ok(out)
}

proof fn lemma_transcript_items_prefix_err(items: Seq<Seq<char>>, i: int)
    requires
        0 <= i <= items.len(),
        transcript_items(items.take(i)) is Err,
    ensures
        transcript_items(items) == transcript_items(items.take(i)),
    decreases items.len() - i,
{
    if i < items.len() {
        assert(items.take(i + 1).drop_last() =~= items.take(i));
        lemma_transcript_items_prefix_err(items, i + 1);
    } else {
        assert(items.take(i) =~= items);
    }
}

fn json_error<T>(m: String) -> (r: Result<T, Error>)
    ensures
        json_err(r, m@),
{
    Err(Error::JsonError(m))
}

/// Reads an inbound upstream message from its JSON text.
pub fn parse_inbound_message(text: &str) -> (r: Result<SpeechEngineInboundMessage, Error>)
    ensures
        inbound_parsed(r, text@),
{
    let es = match parse_entries(text) {
        Ok(es) => es,
        Err(m) => return json_error(m),
    };
    let t = match get_string(&es, "type") {
        Ok(t) => t,
        Err(_) => return json_error(missing_field_text("type")),
    };
    match SpeechEngineInboundKind::from_type(t.as_str()) {
        SpeechEngineInboundKind::Init => {
            let c = match get_string(&es, "conversation_id") {
                Ok(c) => c,
                Err(m) => return json_error(m),
            };
            let extra = rest_without1(&es, "conversation_id");
            Ok(SpeechEngineInboundMessage::Init { conversation_id: c, extra })
        },
        SpeechEngineInboundKind::UserTranscript => {
            let v = match get_value(&es, "user_transcript") {
                Ok(v) => v,
                Err(m) => return json_error(m),
            };
            let items = match array_items(v.as_str()) {
                Some(items) => items,
                None => return json_error(invalid_field_text("user_transcript")),
            };
            let msgs = match transcript_messages(&items) {
                Ok(ms) => ms,
                Err(m) => return json_error(m),
            };
            let id = match get_opt_u64(&es, "event_id") {
                Ok(id) => id,
                Err(m) => return json_error(m),
            };
            let extra = rest_without2(&es, "user_transcript", "event_id");
            Ok(SpeechEngineInboundMessage::UserTranscript { user_transcript: msgs, event_id: id, extra })
        },
        SpeechEngineInboundKind::Ping => Ok(SpeechEngineInboundMessage::Ping),
        SpeechEngineInboundKind::Close => Ok(SpeechEngineInboundMessage::Close),
        SpeechEngineInboundKind::Error => {
            let msg = match get_string(&es, "message") {
                Ok(x) => x,
                Err(m) => return json_error(m),
            };
            let extra = rest_without1(&es, "message");
            Ok(SpeechEngineInboundMessage::Error { message: msg, extra })
        },
        SpeechEngineInboundKind::Unknown => {
            let payload = rest_without1(&es, "type");
            Ok(SpeechEngineInboundMessage::Unknown { message_type: t, payload })
        },
    }
}

/// The `type` names of the inbound messages, each with the kind it reads as.
pub proof fn lemma_inbound_type_table()
    ensures
        inbound_kind_of("init"@) == SpeechEngineInboundKind::Init,
        inbound_kind_of("user_transcript"@) == SpeechEngineInboundKind::UserTranscript,
        inbound_kind_of("ping"@) == SpeechEngineInboundKind::Ping,
        inbound_kind_of("close"@) == SpeechEngineInboundKind::Close,
        inbound_kind_of("error"@) == SpeechEngineInboundKind::Error,
{
    lemma_inbound_kind_round_trip(SpeechEngineInboundKind::Init);
    lemma_inbound_kind_round_trip(SpeechEngineInboundKind::UserTranscript);
    lemma_inbound_kind_round_trip(SpeechEngineInboundKind::Ping);
    lemma_inbound_kind_round_trip(SpeechEngineInboundKind::Close);
    lemma_inbound_kind_round_trip(SpeechEngineInboundKind::Error);
}

} // verus!
