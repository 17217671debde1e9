use ss_tools::structs::{AuthorField, FieldsOfStudy, PaperField, PublicationTypes};
use ss_tools::QueryParams;

#[test]
fn build_empty_when_nothing_set() {
    let query_params = QueryParams::default();
    assert_eq!(query_params.build(), "");
}

#[test]
fn build_empty_ignores_paper_id() {
    let mut query_params = QueryParams::default();
    query_params.paper_id("204e3073870fae3d05bcbc2f6a8e263d9b72e776");
    assert_eq!(query_params.build(), "");
}

#[test]
fn build_encodes_spaces_in_query_text() {
    let mut query_params = QueryParams::default();
    query_params.query_text("attention is all you need");
    let built = query_params.build();
    assert!(built.contains("query=attention%20is%20all%20you%20need"));
    assert_eq!(built, "?query=attention%20is%20all%20you%20need");
}

#[test]
fn build_is_pure_and_repeatable() {
    let mut query_params = QueryParams::default();
    query_params.query_text("graph");
    query_params.limit(5);
    let first = query_params.build();
    let second = query_params.build();
    assert_eq!(first, second);
    assert_eq!(first, "?query=graph&limit=5");
}

#[test]
fn build_min_citation_and_year() {
    let mut query_params = QueryParams::default();
    query_params.min_citation_count(100);
    query_params.year("2020-2024");
    let built = query_params.build();
    assert!(built.starts_with('?'));
    assert!(built.contains("minCitationCount=100"));
    assert!(built.contains("year=2020-2024"));
    assert_eq!(built, "?minCitationCount=100&year=2020-2024");
}

#[test]
fn build_encodes_utf8_bytes() {
    let mut query_params = QueryParams::default();
    query_params.query_text("café");
    assert_eq!(query_params.build(), "?query=caf%C3%A9");
}

#[test]
fn build_fields_encodes_each_selector() {
    let mut query_params = QueryParams::default();
    query_params.fields(vec![PaperField::Title, PaperField::Abstract]);
    assert_eq!(query_params.build(), "?fields=title,abstract");
}

#[test]
fn build_fields_encodes_composite_dots_and_commas() {
    let mut query_params = QueryParams::default();
    query_params.fields(vec![
        PaperField::Title,
        PaperField::Authors(vec![AuthorField::Name, AuthorField::HIndex]),
    ]);
    assert_eq!(
        query_params.build(),
        "?fields=title,authors%2Ename%2Cauthors%2EhIndex"
    );
}

#[test]
fn build_publication_types_encodes_names() {
    let mut query_params = QueryParams::default();
    query_params.publication_types(vec![
        PublicationTypes::JournalArticle,
        PublicationTypes::ClinicalTrial,
        PublicationTypes::MetaAnalysis,
    ]);
    assert_eq!(
        query_params.build(),
        "?publicationTypes=JournalArticle,Clinical%20Trial,Meta%2DAnalysis"
    );
}

#[test]
fn build_open_access_flag_is_presence_only() {
    let mut with_true = QueryParams::default();
    with_true.open_access_pdf(true);
    let mut with_false = QueryParams::default();
    with_false.open_access_pdf(false);
    assert_eq!(with_true.build(), "?openAccessPdf");
    assert_eq!(with_false.build(), "?openAccessPdf");
}

#[test]
fn build_venues_encoded_and_comma_joined() {
    let mut query_params = QueryParams::default();
    query_params.venue(vec!["ACL", "Nature Communications"]);
    assert_eq!(query_params.build(), "?venue=ACL,Nature%20Communications");
}

#[test]
fn build_fields_of_study_encoded() {
    let mut query_params = QueryParams::default();
    query_params.fields_of_study(vec![
        FieldsOfStudy::ComputerScience,
        FieldsOfStudy::Physics,
    ]);
    assert_eq!(query_params.build(), "?fieldsOfStudy=Computer%20Science,Physics");
}

#[test]
fn build_date_token_and_sort_pass_through_unencoded() {
    let mut query_params = QueryParams::default();
    query_params.publication_date_or_year("2020-01-01:");
    query_params.token("NEXT-PAGE");
    query_params.sort("citationCount:desc");
    assert_eq!(
        query_params.build(),
        "?publicationDateOrYear=2020-01-01:&token=NEXT-PAGE&sort=citationCount:desc"
    );
}

#[test]
fn build_all_filters_in_declaration_order() {
    let mut query_params = QueryParams::default();
    query_params.paper_id("ignored-in-query-string");
    query_params.query_text("AI & ML");
    query_params.fields(vec![PaperField::Title]);
    query_params.publication_types(vec![PublicationTypes::Review]);
    query_params.open_access_pdf(true);
    query_params.min_citation_count(0);
    query_params.publication_date_or_year("2020-01-01:");
    query_params.year("2019");
    query_params.venue(vec!["ACL"]);
    query_params.fields_of_study(vec![FieldsOfStudy::Physics]);
    query_params.offset(10);
    query_params.limit(100);
    query_params.token("tok123");
    query_params.sort("year");
    assert_eq!(
        query_params.build(),
        "?query=AI%20%26%20ML&fields=title&publicationTypes=Review&openAccessPdf\
         &minCitationCount=0&publicationDateOrYear=2020-01-01:&year=2019&venue=ACL\
         &fieldsOfStudy=Physics&offset=10&limit=100&token=tok123&sort=year"
    );
}
