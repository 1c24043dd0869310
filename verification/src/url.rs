//! Request URLs: path templates are resolved segment by segment, and the
//! segments and query parameters are written into the URL by the `url`
//! crate through `reqwest`, which escapes them.
use vstd::prelude::*;

use crate::error::Error;
use crate::shared::{query_view, QueryValues};
use crate::text::{
    chars_of, concat2, first_index, lemma_first_index_bounds, next_char, owned, str_eq, string_from,
    string_views, trim_char_start,
};

verus! {

broadcast use vstd::string::group_string_axioms;

/// The host every HTTP endpoint is under.
pub const BASE_URL: &'static str = "https://api.elevenlabs.io";

/// The host every WebSocket endpoint is under.
pub const WS_BASE_URL: &'static str = "wss://api.elevenlabs.io";

/// The non-empty `/`-separated segments of `p`, in order.
pub open spec fn nonempty_segments(p: Seq<char>) -> Seq<Seq<char>>
    decreases p.len(),
{
    proof {
        lemma_first_index_bounds(p, '/');
    }
    match first_index(p, '/') {
        None => if p.len() > 0 {
            seq![p]
        } else {
            seq![]
        },
        Some(i) => (if i > 0 {
            seq![p.take(i)]
        } else {
            seq![]
        }) + nonempty_segments(p.skip(i + 1)),
    }
}

/// The value of the first parameter whose placeholder is `seg`; `seg` itself
/// when none is.
pub open spec fn substitute(seg: Seq<char>, params: Seq<(Seq<char>, Seq<char>)>) -> Seq<char>
    decreases params.len(),
{
    if params.len() == 0 {
        seg
    } else if params[0].0 == seg {
        params[0].1
    } else {
        substitute(seg, params.drop_first())
    }
}

/// Substitution looks a segment up among all the parameters: a segment
/// named by some parameter becomes the value of the first parameter with
/// that name, wherever it stands in the list, and a segment that no
/// parameter names stays as it is.
pub proof fn lemma_substitute_lookup(seg: Seq<char>, params: Seq<(Seq<char>, Seq<char>)>)
    ensures
        forall|i: int|
            0 <= i < params.len() && #[trigger] params[i].0 == seg && (forall|j: int| 0 <= j < i ==> params[j].0 != seg)
                ==> substitute(seg, params) == params[i].1,
        (forall|j: int| 0 <= j < params.len() ==> params[j].0 != seg) ==> substitute(seg, params) == seg,
    decreases params.len(),
{
    if params.len() > 0 {
        let rest = params.drop_first();
        lemma_substitute_lookup(seg, rest);
        assert forall|i: int|
            0 <= i < params.len() && #[trigger] params[i].0 == seg && (forall|j: int| 0 <= j < i ==> params[j].0 != seg)
                implies substitute(seg, params) == params[i].1 by {
            if i > 0 {
                assert(params[0].0 != seg);
                assert(rest[i - 1] == params[i]);
                assert forall|j: int| 0 <= j < i - 1 implies rest[j].0 != seg by {
                    assert(rest[j] == params[j + 1]);
                }
            }
        }
        if forall|j: int| 0 <= j < params.len() ==> params[j].0 != seg {
            assert(params[0].0 != seg);
            assert forall|j: int| 0 <= j < rest.len() implies rest[j].0 != seg by {
                assert(rest[j] == params[j + 1]);
            }
        }
    }
}

/// The path parameters as character sequences.
pub open spec fn params_view(ps: Seq<(&'static str, String)>) -> Seq<(Seq<char>, Seq<char>)> {
    ps.map_values(|p: (&'static str, String)| (p.0@, p.1@))
}

/// The segments of a path template with its placeholders replaced: leading
/// slashes are dropped, empty segments skipped, and a trailing slash keeps an
/// empty last segment.
pub open spec fn resolved_segments(path: Seq<char>, params: Seq<(Seq<char>, Seq<char>)>) -> Seq<
    Seq<char>,
> {
    let p = trim_char_start(path, '/');
    nonempty_segments(p).map_values(|s: Seq<char>| substitute(s, params)) + (if p.len() > 0
        && p.last() == '/' {
        seq![Seq::<char>::empty()]
    } else {
        seq![]
    })
}

/// The value for one segment of a path template.
fn substitute_exec(seg: String, params: &[(&'static str, String)]) -> (r: String)
    ensures
        r@ == substitute(seg@, params_view(params@)),
{
    let mut i: usize = 0;
    assert(params_view(params@).skip(0) =~= params_view(params@));
    while i < params.len()
        invariant
            0 <= i <= params@.len(),
            substitute(seg@, params_view(params@)) == substitute(
                seg@,
                params_view(params@).skip(i as int),
            ),
        decreases params.len() - i,
    {
        let ghost rest = params_view(params@).skip(i as int);
        assert(rest[0] == (params@[i as int].0@, params@[i as int].1@));
        assert(rest.drop_first() =~= params_view(params@).skip(i + 1));
        if str_eq(params[i].0, seg.as_str()) {
            return params[i].1.clone();
        }
        i = i + 1;
    }
    seg
}

/// Resolves a path template against its parameters.
pub fn resolve_path(path: &str, params: &[(&'static str, String)]) -> (r: Vec<String>)
    ensures
        string_views(r@) == resolved_segments(path@, params_view(params@)),
{
    let v = chars_of(path);
    let mut p0: usize = 0;
    assert(v@.subrange(0, v@.len() as int) =~= v@);
    while p0 < v.len() && v[p0] == '/'
        invariant
            0 <= p0 <= v@.len(),
            trim_char_start(v@, '/') == trim_char_start(v@.subrange(p0 as int, v@.len() as int), '/'),
        decreases v.len() - p0,
    {
        assert(v@.subrange(p0 as int, v@.len() as int).drop_first() =~= v@.subrange(
            p0 + 1,
            v@.len() as int,
        ));
        p0 = p0 + 1;
    }
    assert(v@.subrange(0, v@.len() as int) =~= v@);
    let ghost p = v@.subrange(p0 as int, v@.len() as int);
    assert(trim_char_start(p, '/') == p);
    let ghost ps = params_view(params@);
    let ghost full = nonempty_segments(p).map_values(|s: Seq<char>| substitute(s, ps));
    let mut r: Vec<String> = Vec::new();
    let mut start = p0;
    loop
        invariant
            p0 <= start <= v@.len(),
            p == v@.subrange(p0 as int, v@.len() as int),
            trim_char_start(path@, '/') == p,
            v@ == path@,
            ps == params_view(params@),
            full == nonempty_segments(p).map_values(|s: Seq<char>| substitute(s, ps)),
            string_views(r@) + nonempty_segments(v@.subrange(start as int, v@.len() as int)).map_values(
                |s: Seq<char>| substitute(s, ps),
            ) == full,
        decreases v@.len() - start,
    {
        let ghost t = v@.subrange(start as int, v@.len() as int);
        let end = next_char(v.as_slice(), '/', start, v.len());
        let ghost before = r@;
        if end > start {
            let seg = string_from(v.as_slice(), start, end);
            r.push(substitute_exec(seg, params));
            assert(string_views(r@) =~= string_views(before).push(
                substitute(v@.subrange(start as int, end as int), ps),
            ));
        }
        if end == v.len() {
            assert(t =~= v@.subrange(start as int, end as int));
            assert(string_views(r@) =~= string_views(before) + nonempty_segments(t).map_values(
                |s: Seq<char>| substitute(s, ps),
            ));
            let ghost segs = string_views(r@);
            assert(segs =~= full);
            if p0 < v.len() && v[v.len() - 1] == '/' {
                assert(p.last() == v@[v@.len() - 1]);
                r.push(String::new());
                assert(string_views(r@) =~= segs + seq![Seq::<char>::empty()]);
            } else {
                assert(segs + seq![] =~= segs);
            }
            return r;
        }
        assert(t.take(end - start) =~= v@.subrange(start as int, end as int));
        assert(t.skip(end - start + 1) =~= v@.subrange(end + 1, v@.len() as int));
        let ghost rest = nonempty_segments(v@.subrange(end + 1, v@.len() as int));
        let ghost head: Seq<Seq<char>> = if end > start {
            seq![v@.subrange(start as int, end as int)]
        } else {
            seq![]
        };
        assert((head + rest).map_values(|s: Seq<char>| substitute(s, ps)) =~= head.map_values(
            |s: Seq<char>| substitute(s, ps),
        ) + rest.map_values(|s: Seq<char>| substitute(s, ps)));
        assert(string_views(r@) =~= string_views(before) + head.map_values(
            |s: Seq<char>| substitute(s, ps),
        ));
        start = end + 1;
    }
}

/// What writing the segments into the base URL gives: the URL text, or the
/// failure (`Some` with the parser's message when the base does not parse,
/// `None` when it cannot have path segments).
pub uninterp spec fn url_path_outcome(base: Seq<char>, segments: Seq<Seq<char>>) -> Result<
    Seq<char>,
    Option<Seq<char>>,
>;

/// As `url_path_outcome`, with the query pairs then appended.
pub uninterp spec fn url_query_outcome(
    base: Seq<char>,
    segments: Seq<Seq<char>>,
    query: Seq<(Seq<char>, Seq<char>)>,
) -> Result<Seq<char>, Option<Seq<char>>>;

/// The URL of the segments and, when there is one, the query.
pub open spec fn url_outcome(
    base: Seq<char>,
    segments: Seq<Seq<char>>,
    query: Option<Seq<(Seq<char>, Seq<char>)>>,
) -> Result<Seq<char>, Option<Seq<char>>> {
    match query {
        Some(q) => url_query_outcome(base, segments, q),
        None => url_path_outcome(base, segments),
    }
}

/// Whether a result agrees with a named outcome.
pub open spec fn url_result_matches(r: Result<String, Option<String>>, o: Result<Seq<char>, Option<Seq<char>>>) -> bool {
    match (r, o) {
        (Ok(s), Ok(t)) => s@ == t,
        (Err(Some(m)), Err(Some(n))) => m@ == n,
        (Err(None), Err(None)) => true,
        _ => false,
    }
}

/// `reqwest::Url::parse` and `path_segments_mut().clear().extend(..)`: the
/// result is named, not described.
#[verifier::external_body]
fn serialize_url_path(base: &str, segments: &Vec<String>) -> (r: Result<String, Option<String>>)
    ensures
        url_result_matches(r, url_path_outcome(base@, string_views(segments@))),
{
    let mut url = reqwest::Url::parse(base).map_err(|e| Some(e.to_string()))?;
    url.path_segments_mut().map_err(|_| None)?.clear().extend(segments);
    Ok(url.to_string())
}

/// `reqwest::Url::parse`, `path_segments_mut().clear().extend(..)` and
/// `query_pairs_mut().extend_pairs(..)`: the result is named, not described.
#[verifier::external_body]
fn serialize_url_query(base: &str, segments: &Vec<String>, query: &QueryValues) -> (r: Result<
    String,
    Option<String>,
>)
    ensures
        url_result_matches(r, url_query_outcome(base@, string_views(segments@), query_view(query@))),
{
    let mut url = reqwest::Url::parse(base).map_err(|e| Some(e.to_string()))?;
    url.path_segments_mut().map_err(|_| None)?.clear().extend(segments);
    url.query_pairs_mut().extend_pairs(query);
    Ok(url.to_string())
}

/// The URL of the segments, with the query when there is one.
fn serialize_url(base: &str, segments: &Vec<String>, query: Option<&QueryValues>) -> (r: Result<
    String,
    Option<String>,
>)
    ensures
        url_result_matches(r, url_outcome(base@, string_views(segments@), match query {
            Some(q) => Some(query_view(q@)),
            None => None,
        })),
{
    match query {
        Some(q) => serialize_url_query(base, segments, q),
        None => serialize_url_path(base, segments),
    }
}

/// The URL of a request: the base, the resolved path and the query.
pub open spec fn request_url_spec(
    base: Seq<char>,
    path: Seq<char>,
    params: Seq<(Seq<char>, Seq<char>)>,
    query: Option<Seq<(Seq<char>, Seq<char>)>>,
) -> Result<Seq<char>, Option<Seq<char>>> {
    url_outcome(base, resolved_segments(path, params), query)
}

/// The URL of an HTTP request to the API.
pub fn endpoint_url(
    path: &str,
    path_params: &[(&'static str, String)],
    query: Option<QueryValues>,
) -> (r: Result<String, Error>)
    ensures
        match request_url_spec(BASE_URL@, path@, params_view(path_params@), match query {
            Some(q) => Some(query_view(q@)),
            None => None,
        }) {
            Ok(t) => r matches Ok(s) && s@ == t,
            Err(_) => r matches Err(Error::InvalidInput(_)),
        },
{
    let segments = resolve_path(path, path_params);
    let q = match &query {
        Some(q) => Some(q),
        None => None,
    };
    match serialize_url(BASE_URL, &segments, q) {
        Ok(s) => Ok(s),
        Err(_) => Err(Error::InvalidInput(owned("the API base URL is not a valid base"))),
    }
}

/// The URL of a WebSocket endpoint. A base that does not parse, or that
/// cannot have path segments, is an `InvalidInput` error naming it.
pub fn websocket_url(
    base_url: &str,
    path: &str,
    path_params: &[(&'static str, String)],
    query_params: &QueryValues,
) -> (r: Result<String, Error>)
    ensures
        match request_url_spec(base_url@, path@, params_view(path_params@), Some(query_view(query_params@))) {
            Ok(t) => r matches Ok(s) && s@ == t,
            Err(Some(m)) => r matches Err(Error::InvalidInput(e)) && e@ == "invalid websocket base URL: "@ + m,
            Err(None) => r matches Err(Error::InvalidInput(e))
                && e@ == "websocket base URL cannot contain a relative path: "@ + base_url@,
        },
{
    let segments = resolve_path(path, path_params);
    match serialize_url(base_url, &segments, Some(query_params)) {
        Ok(s) => Ok(s),
        Err(Some(m)) => Err(Error::InvalidInput(concat2("invalid websocket base URL: ", m.as_str()))),
        Err(None) => Err(
            Error::InvalidInput(concat2("websocket base URL cannot contain a relative path: ", base_url)),
        ),
    }
}

} // verus!
