use ss_tools::structs::{
    Author, AuthorPapersResponse, AuthorSearchResponse, CitationStyles, Journal, OpenAccessPdf,
    Paper, PaperAuthorsResponse, PaperContext, PaperIds, PublicationVenue, ResponseData,
    ResponsePapers, S2FieldsOfStudy,
};

#[test]
fn default_paper_has_every_field_absent() {
    let paper = Paper::default();
    assert!(paper.paper_id.is_none());
    assert!(paper.corpus_id.is_none());
    assert!(paper.url.is_none());
    assert!(paper.title.is_none());
    assert!(paper.abstract_text.is_none());
    assert!(paper.venue.is_none());
    assert!(paper.publication_venue.is_none());
    assert!(paper.year.is_none());
    assert!(paper.reference_count.is_none());
    assert!(paper.citation_count.is_none());
    assert!(paper.influential_citation_count.is_none());
    assert!(paper.is_open_access.is_none());
    assert!(paper.open_access_pdf.is_none());
    assert!(paper.fields_of_study.is_none());
    assert!(paper.s2_fields_of_study.is_none());
    assert!(paper.publication_types.is_none());
    assert!(paper.publication_date.is_none());
    assert!(paper.journal.is_none());
    assert!(paper.citation_styles.is_none());
    assert!(paper.authors.is_none());
    assert!(paper.citations.is_none());
    assert!(paper.references.is_none());
}

#[test]
fn paper_holds_only_what_is_set() {
    let mut paper = Paper::default();
    paper.paper_id = Some("abc123".to_string());
    assert_eq!(paper.paper_id.as_deref(), Some("abc123"));
    assert!(paper.title.is_none());
    assert!(paper.citations.is_none());
}

#[test]
fn default_author_has_every_field_absent() {
    let author = Author::default();
    assert!(author.author_id.is_none());
    assert!(author.url.is_none());
    assert!(author.name.is_none());
    assert!(author.affiliations.is_none());
    assert!(author.homepage.is_none());
    assert!(author.paper_count.is_none());
    assert!(author.citation_count.is_none());
    assert!(author.hindex.is_none());
}

#[test]
fn default_envelopes_are_empty() {
    let ids = PaperIds::default();
    assert_eq!(ids.total, 0);
    assert_eq!(ids.offset, 0);
    assert_eq!(ids.token, "");
    assert!(ids.data.is_empty());

    let papers = ResponsePapers::default();
    assert!(papers.offset.is_none());
    assert!(papers.next.is_none());
    assert!(papers.data.is_empty());

    let authors = AuthorSearchResponse::default();
    assert_eq!(authors.offset, 0);
    assert!(authors.next.is_none());
    assert_eq!(authors.total, 0);
    assert!(authors.data.is_empty());

    let author_papers = AuthorPapersResponse::default();
    assert!(author_papers.offset.is_none());
    assert!(author_papers.data.is_empty());

    let paper_authors = PaperAuthorsResponse::default();
    assert!(paper_authors.next.is_none());
    assert!(paper_authors.data.is_empty());
}

#[test]
fn default_substructures_are_empty() {
    let venue = PublicationVenue::default();
    assert_eq!(venue.id, "");
    assert!(venue.name.is_none());
    assert!(venue.venue_type.is_none());
    assert!(venue.url.is_none());
    assert!(venue.alternate_names.is_none());

    let pdf = OpenAccessPdf::default();
    assert!(pdf.url.is_none());
    assert!(pdf.status.is_none());

    let s2 = S2FieldsOfStudy::default();
    assert!(s2.category.is_none());
    assert!(s2.source.is_none());

    let journal = Journal::default();
    assert!(journal.volume.is_none());
    assert!(journal.pages.is_none());
    assert!(journal.name.is_none());

    let styles = CitationStyles::default();
    assert!(styles.bibtex.is_none());

    let context = PaperContext::default();
    assert!(context.context.is_none());
    assert!(context.intents.is_none());

    let relation = ResponseData::default();
    assert!(relation.contexts.is_none());
    assert!(relation.intents.is_none());
    assert!(relation.contexts_with_intent.is_none());
    assert!(relation.isinfluential.is_none());
    assert!(relation.citing_paper.is_none());
}
