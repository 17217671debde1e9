use ss_tools::structs::{Endpoint, PaperField};
use ss_tools::{bulk_ids_body, failure_message, QueryParams, SemanticScholar};

const BASE: &str = "https://api.semanticscholar.org/graph/v1/";

#[test]
fn url_for_batch_fetch() {
    let ss = SemanticScholar::default();
    let mut query_params = QueryParams::default();
    query_params.fields(vec![PaperField::Title]);
    let url = ss.get_url(Endpoint::GetMultiplePpaerDetails, &query_params);
    assert_eq!(url, format!("{BASE}paper/batch?fields=title"));
}

#[test]
fn url_for_title_search_endpoints() {
    let ss = SemanticScholar::default();
    let mut query_params = QueryParams::default();
    query_params.query_text("attention is all you need");
    let search = ss.get_url(Endpoint::GetPapersByTitle, &query_params);
    assert_eq!(
        search,
        format!("{BASE}paper/search?query=attention%20is%20all%20you%20need")
    );
    let matched = ss.get_url(Endpoint::GetAPaperByTitle, &query_params);
    assert_eq!(
        matched,
        format!("{BASE}paper/search/match?query=attention%20is%20all%20you%20need")
    );
}

#[test]
fn url_embeds_identifier_in_path() {
    let ss = SemanticScholar::default();
    let mut query_params = QueryParams::default();
    query_params.paper_id("204e3073870fae3d05bcbc2f6a8e263d9b72e776");
    query_params.fields(vec![PaperField::Title]);
    let url = ss.get_url(Endpoint::GetPaperDetails, &query_params);
    assert_eq!(
        url,
        format!("{BASE}paper/204e3073870fae3d05bcbc2f6a8e263d9b72e776?fields=title")
    );
}

#[test]
fn url_identifier_is_not_percent_encoded() {
    let ss = SemanticScholar::default();
    let mut query_params = QueryParams::default();
    query_params.paper_id("ARXIV:2106.15928");
    let url = ss.get_url(Endpoint::GetPaperDetails, &query_params);
    assert_eq!(url, format!("{BASE}paper/ARXIV:2106.15928"));
}

#[test]
fn url_for_citation_and_reference_listings() {
    let ss = SemanticScholar::default();
    let mut query_params = QueryParams::default();
    query_params.paper_id("abc123");
    let citations = ss.get_url(Endpoint::GetCitationsOfAPaper, &query_params);
    assert_eq!(citations, format!("{BASE}paper/abc123/citations"));
    let references = ss.get_url(Endpoint::GetReferencesOfAPaper, &query_params);
    assert_eq!(references, format!("{BASE}paper/abc123/references"));
    let authors = ss.get_url(Endpoint::GetPaperAuthors, &query_params);
    assert_eq!(authors, format!("{BASE}paper/abc123/authors"));
}

#[test]
fn url_for_author_endpoints() {
    let ss = SemanticScholar::default();
    let mut query_params = QueryParams::default();
    query_params.paper_id("1741101");
    let details = ss.get_url(Endpoint::GetAuthorDetails, &query_params);
    assert_eq!(details, format!("{BASE}author/1741101"));
    let papers = ss.get_url(Endpoint::GetAuthorPapers, &query_params);
    assert_eq!(papers, format!("{BASE}author/1741101/papers"));
    let mut search_params = QueryParams::default();
    search_params.query_text("Geoffrey Hinton");
    let search = ss.get_url(Endpoint::SearchAuthors, &search_params);
    assert_eq!(search, format!("{BASE}author/search?query=Geoffrey%20Hinton"));
}

#[test]
fn client_carries_api_key() {
    let ss = SemanticScholar::with_api_key("secret-key".to_string());
    assert_eq!(ss.api_key, "secret-key");
    let anon = SemanticScholar::default();
    assert_eq!(anon.api_key, "");
}

#[test]
fn bulk_body_lists_quoted_ids() {
    let ids = vec![
        "649def34f8be52c8b66281af98ae884c09aef38b".to_string(),
        "ARXIV:2106.15928".to_string(),
    ];
    assert_eq!(
        bulk_ids_body(&ids),
        "{\"ids\":[\"649def34f8be52c8b66281af98ae884c09aef38b\",\"ARXIV:2106.15928\"]}"
    );
}

#[test]
fn bulk_body_of_no_ids() {
    let ids: Vec<String> = vec![];
    assert_eq!(bulk_ids_body(&ids), "{\"ids\":[]}");
}

#[test]
fn failure_messages_name_operation_and_input() {
    assert_eq!(
        failure_message(Endpoint::GetMultiplePpaerDetails, ""),
        "Failed to get papers"
    );
    assert_eq!(
        failure_message(Endpoint::GetPapersByTitle, "attention is all you need"),
        "Failed to get paper id for: attention is all you need"
    );
    assert_eq!(
        failure_message(Endpoint::GetAPaperByTitle, "truth or mirage?"),
        "Failed to get paper id for: truth or mirage?"
    );
    assert_eq!(
        failure_message(Endpoint::GetPaperDetails, "abc123"),
        "Failed to get paper details: abc123"
    );
    assert_eq!(
        failure_message(Endpoint::GetCitationsOfAPaper, "abc123"),
        "Failed to get paper citations: abc123"
    );
    assert_eq!(
        failure_message(Endpoint::GetReferencesOfAPaper, "abc123"),
        "Failed to get paper references: abc123"
    );
    assert_eq!(
        failure_message(Endpoint::GetAuthorDetails, "1741101"),
        "Failed to get author details: 1741101"
    );
    assert_eq!(
        failure_message(Endpoint::SearchAuthors, "Geoffrey Hinton"),
        "Failed to get authors for: Geoffrey Hinton"
    );
    assert_eq!(
        failure_message(Endpoint::GetAuthorPapers, "1741101"),
        "Failed to get author papers: 1741101"
    );
    assert_eq!(
        failure_message(Endpoint::GetPaperAuthors, "abc123"),
        "Failed to get paper authors: abc123"
    );
}
