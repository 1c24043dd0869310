//! The endpoints of the API: each is a request builder that names its path,
//! method, path parameters and query parameters.
use vstd::prelude::*;

use crate::shared::{HttpMethod, QueryValues};

pub mod genai;

verus! {

/// An endpoint of the API. The path is a template whose `:name` segments are
/// replaced by the path parameters of the same name.
pub trait ElevenLabsEndpoint {
    /// The path template.
    fn path(&self) -> &'static str;

    /// The HTTP method.
    fn method(&self) -> HttpMethod;

    /// The query parameters, if the request has any.
    fn query_params(&self) -> Option<QueryValues>;

    /// The values of the `:name` segments of the path, by placeholder.
    fn path_params(&self) -> Vec<(&'static str, String)>;
}

} // verus!
