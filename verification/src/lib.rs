//! Typed client library for a scholarly-paper metadata web API.
//!
//! The crate models the request side of the API: field selectors that
//! serialize to the comma-separated, dot-qualified syntax the service
//! expects, a query-parameter builder that produces percent-encoded URL
//! query strings, an endpoint resolver that yields full request URLs, the
//! typed records the service's JSON responses map onto, and the retry
//! policy that governs repeated attempts against transient failure.
//! The transport itself — HTTP, JSON deserialization, credentials from the
//! environment — stays outside; callers hand the results of those calls
//! back in as plain values.

pub mod encoding;

pub mod structs;

pub mod utils;

mod client;

mod query;

mod retry;

pub use client::{base_url, url_str, SemanticScholar};

pub use query::{build_str, lemma_build_empty_when_unset, query_parts, QueryParams};

pub use retry::{retryable, RetryAction, RetryEvent, RetryPolicy};
pub use retry::{accept_match_response, accept_papers_response, has_paper_id, with_paper_id_field};
pub use retry::{bulk_ids_body, bulk_ids_body_str, failure_message, failure_message_str, quoted};
