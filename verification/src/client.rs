//! The client value and the endpoint resolver.
//!
//! `SemanticScholar` carries the only configuration the service knows: an
//! optional API key, attached by the transport as a request header when it
//! is non-empty.  `get_url` maps a logical operation plus the built query
//! string onto the fully qualified request URL; the paper or author
//! identifier is embedded in the path, never percent-encoded.

use vstd::prelude::*;

use crate::query::{build_str, QueryParams};
use crate::structs::Endpoint;

verus! {

/// The versioned origin every request URL starts with.
pub open spec fn base_url() -> Seq<char> {
    "https://api.semanticscholar.org/graph/v1/"@
}

/// The full request URL for an operation: the fixed base, the operation's
/// path (with the identifier embedded where the path calls for one), and
/// the query string.
pub open spec fn url_str(endpoint: Endpoint, id: Seq<char>, query: Seq<char>) -> Seq<char> {
    match endpoint {
        Endpoint::GetMultiplePpaerDetails => base_url() + "paper/batch"@ + query,
        Endpoint::GetAPaperByTitle => base_url() + "paper/search/match"@ + query,
        Endpoint::GetPapersByTitle => base_url() + "paper/search"@ + query,
        Endpoint::GetPaperDetails => base_url() + "paper/"@ + id + query,
        Endpoint::GetAuthorDetails => base_url() + "author/"@ + id + query,
        Endpoint::GetReferencesOfAPaper => base_url() + "paper/"@ + id + "/references"@ + query,
        Endpoint::GetCitationsOfAPaper => base_url() + "paper/"@ + id + "/citations"@ + query,
        Endpoint::SearchAuthors => base_url() + "author/search"@ + query,
        Endpoint::GetAuthorPapers => base_url() + "author/"@ + id + "/papers"@ + query,
        Endpoint::GetPaperAuthors => base_url() + "paper/"@ + id + "/authors"@ + query,
    }
}

/// A client configuration: an API key, empty when requests are to be sent
/// unauthenticated.
#[derive(Clone, Debug)]
pub struct SemanticScholar {
    pub api_key: String,
}

impl Default for SemanticScholar {
    /// A client that sends unauthenticated requests.
    fn default() -> (r: Self)
        ensures
            r.api_key@.len() == 0,
    {
        SemanticScholar { api_key: String::new() }
    }
}

impl SemanticScholar {
    /// A client that authenticates with the given API key; an empty key
    /// means unauthenticated requests.
    pub fn with_api_key(api_key: String) -> (r: Self)
        ensures
            r.api_key == api_key,
    {
        SemanticScholar { api_key }
    }

    /// Resolves an operation and the accumulated parameters to the full
    /// request URL.
    pub fn get_url(&self, endpoint: Endpoint, query_params: &QueryParams) -> (r: String)
        ensures
            r@ == url_str(endpoint, query_params.paper_id@, build_str(*query_params)),
    {
        let query = query_params.build();
        let mut url = String::from_str("https://api.semanticscholar.org/graph/v1/");
        match endpoint {
            Endpoint::GetMultiplePpaerDetails => {
                url.append("paper/batch");
            },
            Endpoint::GetAPaperByTitle => {
                url.append("paper/search/match");
            },
            Endpoint::GetPapersByTitle => {
                url.append("paper/search");
            },
            Endpoint::GetPaperDetails => {
                url.append("paper/");
                url.append(query_params.paper_id.as_str());
            },
            Endpoint::GetAuthorDetails => {
                url.append("author/");
                url.append(query_params.paper_id.as_str());
            },
            Endpoint::GetReferencesOfAPaper => {
                url.append("paper/");
                url.append(query_params.paper_id.as_str());
                url.append("/references");
            },
            Endpoint::GetCitationsOfAPaper => {
                url.append("paper/");
                url.append(query_params.paper_id.as_str());
                url.append("/citations");
            },
            Endpoint::SearchAuthors => {
                url.append("author/search");
            },
            Endpoint::GetAuthorPapers => {
                url.append("author/");
                url.append(query_params.paper_id.as_str());
                url.append("/papers");
            },
            Endpoint::GetPaperAuthors => {
                url.append("paper/");
                url.append(query_params.paper_id.as_str());
                url.append("/authors");
            },
        }
        url.append(query.as_str());
        url
    }
}

} // verus!
