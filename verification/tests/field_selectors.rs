use ss_tools::structs::{AuthorField, FieldsOfStudy, PaperField, PublicationTypes};

#[test]
fn author_field_wire_names() {
    assert_eq!(AuthorField::AuthorId.to_string(), "authorId");
    assert_eq!(AuthorField::Name.to_string(), "name");
    assert_eq!(AuthorField::Url.to_string(), "url");
    assert_eq!(AuthorField::Affiliations.to_string(), "affiliations");
    assert_eq!(AuthorField::Homepage.to_string(), "homepage");
    assert_eq!(AuthorField::PaperCount.to_string(), "paperCount");
    assert_eq!(AuthorField::CitationCount.to_string(), "citationCount");
    assert_eq!(AuthorField::HIndex.to_string(), "hIndex");
}

#[test]
fn paper_field_leaf_wire_names() {
    assert_eq!(PaperField::PaperId.to_string(), "paperId");
    assert_eq!(PaperField::Corpusid.to_string(), "corpusId");
    assert_eq!(PaperField::Title.to_string(), "title");
    assert_eq!(PaperField::Abstract.to_string(), "abstract");
    assert_eq!(PaperField::PublicationVenue.to_string(), "publicationVenue");
    assert_eq!(PaperField::ReferenceCount.to_string(), "referenceCount");
    assert_eq!(PaperField::InfluentialCitationCount.to_string(), "influentialCitationCount");
    assert_eq!(PaperField::IsOpenAccess.to_string(), "isOpenAccess");
    assert_eq!(PaperField::OpenAccessPdf.to_string(), "openAccessPdf");
    assert_eq!(PaperField::S2FieldsOfStudy.to_string(), "s2FieldsOfStudy");
    assert_eq!(PaperField::PublicationDate.to_string(), "publicationDate");
    assert_eq!(PaperField::CitationStyles.to_string(), "citationStyles");
    assert_eq!(PaperField::ContextsWithIntent.to_string(), "contextsWithIntent");
}

#[test]
fn paper_field_embedding_is_model_qualified() {
    assert_eq!(PaperField::Embedding.to_string(), "embedding.specter_v2");
}

#[test]
fn composite_pair_serializes_prefixed_and_comma_joined() {
    let selector = PaperField::Authors(vec![AuthorField::Name, AuthorField::HIndex]);
    assert_eq!(selector.to_string(), "authors.name,authors.hIndex");
}

#[test]
fn composite_citations_and_references() {
    let citations = PaperField::Citations(vec![PaperField::Title, PaperField::Year]);
    assert_eq!(citations.to_string(), "citations.title,citations.year");
    let references = PaperField::References(vec![PaperField::CitationCount]);
    assert_eq!(references.to_string(), "references.citationCount");
}

#[test]
fn composite_nests_recursively() {
    let selector = PaperField::Citations(vec![
        PaperField::Title,
        PaperField::Authors(vec![AuthorField::Name]),
    ]);
    assert_eq!(selector.to_string(), "citations.title,citations.authors.name");
}

#[test]
fn composite_with_no_children_serializes_empty() {
    assert_eq!(PaperField::Authors(vec![]).to_string(), "");
    assert_eq!(PaperField::Citations(vec![]).to_string(), "");
}

#[test]
fn serialization_is_deterministic() {
    let selectors = vec![
        PaperField::Title,
        PaperField::Embedding,
        PaperField::Authors(vec![AuthorField::Name, AuthorField::HIndex]),
        PaperField::Citations(vec![PaperField::Title, PaperField::Authors(vec![AuthorField::Url])]),
    ];
    for selector in &selectors {
        assert_eq!(selector.to_string(), selector.to_string());
    }
}

#[test]
fn publication_type_wire_names() {
    assert_eq!(PublicationTypes::Review.to_string(), "Review");
    assert_eq!(PublicationTypes::JournalArticle.to_string(), "JournalArticle");
    assert_eq!(PublicationTypes::CaseReport.to_string(), "CaseReport");
    assert_eq!(PublicationTypes::ClinicalTrial.to_string(), "Clinical Trial");
    assert_eq!(PublicationTypes::Conference.to_string(), "Conference");
    assert_eq!(PublicationTypes::Dataset.to_string(), "Dataset");
    assert_eq!(PublicationTypes::Editorial.to_string(), "Editorial");
    assert_eq!(PublicationTypes::LettersAndComments.to_string(), "LettersAndComments");
    assert_eq!(PublicationTypes::MetaAnalysis.to_string(), "Meta-Analysis");
    assert_eq!(PublicationTypes::News.to_string(), "News");
    assert_eq!(PublicationTypes::Study.to_string(), "Study");
    assert_eq!(PublicationTypes::Book.to_string(), "Book");
    assert_eq!(PublicationTypes::BookSection.to_string(), "Book Section");
}

#[test]
fn field_of_study_wire_names() {
    assert_eq!(FieldsOfStudy::ComputerScience.to_string(), "Computer Science");
    assert_eq!(FieldsOfStudy::MaterialsScience.to_string(), "Materials Science");
    assert_eq!(FieldsOfStudy::PoliticalScience.to_string(), "Political Science");
    assert_eq!(FieldsOfStudy::EnvironmentalScience.to_string(), "Environmental Science");
    assert_eq!(
        FieldsOfStudy::AgriculturalAndFoodScience.to_string(),
        "Agricultural and Food Science"
    );
    assert_eq!(FieldsOfStudy::Histroy.to_string(), "Histroy");
    assert_eq!(FieldsOfStudy::Linguistics.to_string(), "Linguistics");
}
