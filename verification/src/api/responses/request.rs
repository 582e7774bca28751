//! The request side of a stub mapping: what an incoming request must look like.

use vstd::prelude::*;

verus! {

/// What a request must look like for a mapping to answer it.
pub struct MappingRequest {
    pub method: Option<String>,
    pub url: Option<String>,
    pub url_path: Option<String>,
    pub url_path_pattern: Option<String>,
    pub query_parameters: Option<String>,
}

} // verus!
