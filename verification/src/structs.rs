//! Field selectors, filter vocabularies and typed response records.
//!
//! The enums in this module form the closed vocabulary that the remote
//! service accepts in its `fields`, `publicationTypes` and `fieldsOfStudy`
//! query parameters.  Each enum has a spec-level serialization function and
//! an executable `to_string` proved to agree with it.

use vstd::prelude::*;

verus! {

/// A logical operation against the remote service; the endpoint resolver
/// maps each variant to its URL path.
#[derive(Clone, Copy, Debug, PartialEq, Eq, Structural)]
pub enum Endpoint {
    GetMultiplePpaerDetails,
    GetAPaperByTitle,
    GetPapersByTitle,
    GetPaperDetails,
    GetAuthorDetails,
    GetReferencesOfAPaper,
    GetCitationsOfAPaper,
    SearchAuthors,
    GetAuthorPapers,
    GetPaperAuthors,
}

impl Default for Endpoint {
    fn default() -> (r: Self)
        ensures
            r == Endpoint::GetMultiplePpaerDetails,
    {
        Endpoint::GetMultiplePpaerDetails
    }
}

/// An attribute of an author record that can be requested from the service.
#[derive(Clone, Copy, Debug, PartialEq, Eq, Structural)]
pub enum AuthorField {
    AuthorId,
    Name,
    Url,
    Affiliations,
    Homepage,
    PaperCount,
    CitationCount,
    HIndex,
}

impl Default for AuthorField {
    fn default() -> (r: Self)
        ensures
            r == AuthorField::AuthorId,
    {
        AuthorField::AuthorId
    }
}

/// The exact wire name of an author attribute.
pub open spec fn author_field_str(f: AuthorField) -> Seq<char> {
    match f {
        AuthorField::AuthorId => "authorId"@,
        AuthorField::Name => "name"@,
        AuthorField::Url => "url"@,
        AuthorField::Affiliations => "affiliations"@,
        AuthorField::Homepage => "homepage"@,
        AuthorField::PaperCount => "paperCount"@,
        AuthorField::CitationCount => "citationCount"@,
        AuthorField::HIndex => "hIndex"@,
    }
}

impl AuthorField {
    /// The wire name of this attribute, e.g. `hIndex` for `HIndex`.
    pub fn to_string(&self) -> (r: String)
        ensures
            r@ == author_field_str(*self),
    {
        match self {
            AuthorField::AuthorId => String::from_str("authorId"),
            AuthorField::Name => String::from_str("name"),
            AuthorField::Url => String::from_str("url"),
            AuthorField::Affiliations => String::from_str("affiliations"),
            AuthorField::Homepage => String::from_str("homepage"),
            AuthorField::PaperCount => String::from_str("paperCount"),
            AuthorField::CitationCount => String::from_str("citationCount"),
            AuthorField::HIndex => String::from_str("hIndex"),
        }
    }
}

/// An attribute of a paper record that can be requested from the service.
///
/// The three composite variants select attributes of nested records: the
/// paper's authors, the papers citing it, and the papers it references.
#[derive(Debug, PartialEq)]
pub enum PaperField {
    PaperId,
    Corpusid,
    Url,
    Title,
    Abstract,
    Venue,
    PublicationVenue,
    Year,
    ReferenceCount,
    CitationCount,
    InfluentialCitationCount,
    IsOpenAccess,
    OpenAccessPdf,
    FieldsOfStudy,
    S2FieldsOfStudy,
    PublicationTypes,
    PublicationDate,
    Journal,
    CitationStyles,
    Authors(Vec<AuthorField>),
    Citations(Vec<PaperField>),
    References(Vec<PaperField>),
    Embedding,
    Contexts,
    Intents,
    IsInfluential,
    ContextsWithIntent,
}

impl Default for PaperField {
    fn default() -> (r: Self)
        ensures
            r == PaperField::PaperId,
    {
        PaperField::PaperId
    }
}

/// The serialization of a paper field selector: a fixed wire name for a
/// leaf, and for a composite the comma-join of `<prefix>.<child>` over its
/// children, recursively.
pub open spec fn paper_field_str(f: PaperField) -> Seq<char>
    decreases f, 0int, 0int,
{
    match f {
        PaperField::PaperId => "paperId"@,
        PaperField::Corpusid => "corpusId"@,
        PaperField::Url => "url"@,
        PaperField::Title => "title"@,
        PaperField::Abstract => "abstract"@,
        PaperField::Venue => "venue"@,
        PaperField::PublicationVenue => "publicationVenue"@,
        PaperField::Year => "year"@,
        PaperField::ReferenceCount => "referenceCount"@,
        PaperField::CitationCount => "citationCount"@,
        PaperField::InfluentialCitationCount => "influentialCitationCount"@,
        PaperField::IsOpenAccess => "isOpenAccess"@,
        PaperField::OpenAccessPdf => "openAccessPdf"@,
        PaperField::FieldsOfStudy => "fieldsOfStudy"@,
        PaperField::S2FieldsOfStudy => "s2FieldsOfStudy"@,
        PaperField::PublicationTypes => "publicationTypes"@,
        PaperField::PublicationDate => "publicationDate"@,
        PaperField::Journal => "journal"@,
        PaperField::CitationStyles => "citationStyles"@,
        PaperField::Authors(fs) => author_fields_prefixed(fs@),
        PaperField::Citations(fs) => paper_fields_prefixed("citations."@, fs@),
        PaperField::References(fs) => paper_fields_prefixed("references."@, fs@),
        PaperField::Embedding => "embedding.specter_v2"@,
        PaperField::Contexts => "contexts"@,
        PaperField::Intents => "intents"@,
        PaperField::IsInfluential => "isInfluential"@,
        PaperField::ContextsWithIntent => "contextsWithIntent"@,
    }
}

/// `<prefix><c_0>,<prefix><c_1>,...` over paper-field children.
pub open spec fn paper_fields_prefixed(prefix: Seq<char>, fs: Seq<PaperField>) -> Seq<char>
    decreases fs, 1int, 0int,
{
    if fs.len() == 0 {
        Seq::<char>::empty()
    } else {
        prefix + paper_field_str(fs[0]) + paper_fields_tail(prefix, fs, 1)
    }
}

/// The part of `paper_fields_prefixed` contributed by children `i` onward,
/// each preceded by a comma.
pub open spec fn paper_fields_tail(prefix: Seq<char>, fs: Seq<PaperField>, i: int) -> Seq<char>
    decreases fs, 0int, fs.len() - i,
{
    if i < 0 || i >= fs.len() {
        Seq::<char>::empty()
    } else {
        ","@ + prefix + paper_field_str(fs[i]) + paper_fields_tail(prefix, fs, i + 1)
    }
}

/// `authors.<c_0>,authors.<c_1>,...` over author-field children.
pub open spec fn author_fields_prefixed(fs: Seq<AuthorField>) -> Seq<char> {
    if fs.len() == 0 {
        Seq::<char>::empty()
    } else {
        "authors."@ + author_field_str(fs[0]) + author_fields_tail(fs, 1)
    }
}

/// The part of `author_fields_prefixed` contributed by children `i` onward.
pub open spec fn author_fields_tail(fs: Seq<AuthorField>, i: int) -> Seq<char>
    decreases fs.len() - i,
{
    if i < 0 || i >= fs.len() {
        Seq::<char>::empty()
    } else {
        ","@ + "authors."@ + author_field_str(fs[i]) + author_fields_tail(fs, i + 1)
    }
}

impl PaperField {
    /// The wire fragment this selector contributes to a `fields` parameter.
    pub fn to_string(&self) -> (r: String)
        ensures
            r@ == paper_field_str(*self),
        decreases *self, 1int, 0int,
    {
        match self {
            PaperField::PaperId => String::from_str("paperId"),
            PaperField::Corpusid => String::from_str("corpusId"),
            PaperField::Url => String::from_str("url"),
            PaperField::Title => String::from_str("title"),
            PaperField::Abstract => String::from_str("abstract"),
            PaperField::Venue => String::from_str("venue"),
            PaperField::PublicationVenue => String::from_str("publicationVenue"),
            PaperField::Year => String::from_str("year"),
            PaperField::ReferenceCount => String::from_str("referenceCount"),
            PaperField::CitationCount => String::from_str("citationCount"),
            PaperField::InfluentialCitationCount => String::from_str("influentialCitationCount"),
            PaperField::IsOpenAccess => String::from_str("isOpenAccess"),
            PaperField::OpenAccessPdf => String::from_str("openAccessPdf"),
            PaperField::FieldsOfStudy => String::from_str("fieldsOfStudy"),
            PaperField::S2FieldsOfStudy => String::from_str("s2FieldsOfStudy"),
            PaperField::PublicationTypes => String::from_str("publicationTypes"),
            PaperField::PublicationDate => String::from_str("publicationDate"),
            PaperField::Journal => String::from_str("journal"),
            PaperField::CitationStyles => String::from_str("citationStyles"),
            PaperField::Authors(fs) => join_author_fields(fs),
            PaperField::Citations(fs) => join_paper_fields("citations.", fs),
            PaperField::References(fs) => join_paper_fields("references.", fs),
            PaperField::Embedding => String::from_str("embedding.specter_v2"),
            PaperField::Contexts => String::from_str("contexts"),
            PaperField::Intents => String::from_str("intents"),
            PaperField::IsInfluential => String::from_str("isInfluential"),
            PaperField::ContextsWithIntent => String::from_str("contextsWithIntent"),
        }
    }
}

/// Joins `<prefix><child>` over paper-field children with commas.
fn join_paper_fields(prefix: &str, fs: &Vec<PaperField>) -> (r: String)
    ensures
        r@ == paper_fields_prefixed(prefix@, fs@),
    decreases *fs, 0int, 0int,
{
    let mut out = String::new();
    if fs.len() == 0 {
        return out;
    }
    out.append(prefix);
    let s0 = fs[0].to_string();
    out.append(s0.as_str());
    let mut i: usize = 1;
    while i < fs.len()
        invariant
            1 <= i <= fs@.len(),
            fs@.len() > 0,
            paper_fields_prefixed(prefix@, fs@) == out@ + paper_fields_tail(
                prefix@,
                fs@,
                i as int,
            ),
        decreases fs@.len() - i,
    {
        out.append(",");
        out.append(prefix);
        let si = fs[i].to_string();
        out.append(si.as_str());
        i = i + 1;
    }
    proof {
        assert(out@ + paper_fields_tail(prefix@, fs@, i as int) =~= out@);
    }
    out
}

/// Joins `authors.<child>` over author-field children with commas.
fn join_author_fields(fs: &Vec<AuthorField>) -> (r: String)
    ensures
        r@ == author_fields_prefixed(fs@),
{
    let mut out = String::new();
    if fs.len() == 0 {
        return out;
    }
    out.append("authors.");
    let s0 = fs[0].to_string();
    out.append(s0.as_str());
    let mut i: usize = 1;
    while i < fs.len()
        invariant
            1 <= i <= fs@.len(),
            fs@.len() > 0,
            author_fields_prefixed(fs@) == out@ + author_fields_tail(fs@, i as int),
        decreases fs@.len() - i,
    {
        out.append(",");
        out.append("authors.");
        let si = fs[i].to_string();
        out.append(si.as_str());
        i = i + 1;
    }
    proof {
        assert(out@ + author_fields_tail(fs@, i as int) =~= out@);
    }
    out
}

/// A publication-type filter value accepted by the service.
#[derive(Clone, Copy, Debug, PartialEq, Eq, Structural)]
pub enum PublicationTypes {
    Review,
    JournalArticle,
    CaseReport,
    ClinicalTrial,
    Conference,
    Dataset,
    Editorial,
    LettersAndComments,
    MetaAnalysis,
    News,
    Study,
    Book,
    BookSection,
}

impl Default for PublicationTypes {
    fn default() -> (r: Self)
        ensures
            r == PublicationTypes::Review,
    {
        PublicationTypes::Review
    }
}

/// The exact wire name of a publication type.
pub open spec fn publication_type_str(t: PublicationTypes) -> Seq<char> {
    match t {
        PublicationTypes::Review => "Review"@,
        PublicationTypes::JournalArticle => "JournalArticle"@,
        PublicationTypes::CaseReport => "CaseReport"@,
        PublicationTypes::ClinicalTrial => "Clinical Trial"@,
        PublicationTypes::Conference => "Conference"@,
        PublicationTypes::Dataset => "Dataset"@,
        PublicationTypes::Editorial => "Editorial"@,
        PublicationTypes::LettersAndComments => "LettersAndComments"@,
        PublicationTypes::MetaAnalysis => "Meta-Analysis"@,
        PublicationTypes::News => "News"@,
        PublicationTypes::Study => "Study"@,
        PublicationTypes::Book => "Book"@,
        PublicationTypes::BookSection => "Book Section"@,
    }
}

impl PublicationTypes {
    /// The wire name of this publication type, e.g. `Meta-Analysis`.
    pub fn to_string(&self) -> (r: String)
        ensures
            r@ == publication_type_str(*self),
    {
        match self {
            PublicationTypes::Review => String::from_str("Review"),
            PublicationTypes::JournalArticle => String::from_str("JournalArticle"),
            PublicationTypes::CaseReport => String::from_str("CaseReport"),
            PublicationTypes::ClinicalTrial => String::from_str("Clinical Trial"),
            PublicationTypes::Conference => String::from_str("Conference"),
            PublicationTypes::Dataset => String::from_str("Dataset"),
            PublicationTypes::Editorial => String::from_str("Editorial"),
            PublicationTypes::LettersAndComments => String::from_str("LettersAndComments"),
            PublicationTypes::MetaAnalysis => String::from_str("Meta-Analysis"),
            PublicationTypes::News => String::from_str("News"),
            PublicationTypes::Study => String::from_str("Study"),
            PublicationTypes::Book => String::from_str("Book"),
            PublicationTypes::BookSection => String::from_str("Book Section"),
        }
    }
}

/// A field-of-study filter value accepted by the service.
#[derive(Clone, Copy, Debug, PartialEq, Eq, Structural)]
pub enum FieldsOfStudy {
    ComputerScience,
    Medicine,
    Chemistry,
    Biology,
    MaterialsScience,
    Physics,
    Geology,
    Psychology,
    Art,
    Histroy,
    Geography,
    Sociology,
    Business,
    PoliticalScience,
    Economics,
    Philosophy,
    Mathematics,
    Engineering,
    EnvironmentalScience,
    AgriculturalAndFoodScience,
    Education,
    Law,
    Linguistics,
}

impl Default for FieldsOfStudy {
    fn default() -> (r: Self)
        ensures
            r == FieldsOfStudy::ComputerScience,
    {
        FieldsOfStudy::ComputerScience
    }
}

/// The exact wire name of a field of study.
pub open spec fn field_of_study_str(f: FieldsOfStudy) -> Seq<char> {
    match f {
        FieldsOfStudy::ComputerScience => "Computer Science"@,
        FieldsOfStudy::Medicine => "Medicine"@,
        FieldsOfStudy::Chemistry => "Chemistry"@,
        FieldsOfStudy::Biology => "Biology"@,
        FieldsOfStudy::MaterialsScience => "Materials Science"@,
        FieldsOfStudy::Physics => "Physics"@,
        FieldsOfStudy::Geology => "Geology"@,
        FieldsOfStudy::Psychology => "Psychology"@,
        FieldsOfStudy::Art => "Art"@,
        FieldsOfStudy::Histroy => "Histroy"@,
        FieldsOfStudy::Geography => "Geography"@,
        FieldsOfStudy::Sociology => "Sociology"@,
        FieldsOfStudy::Business => "Business"@,
        FieldsOfStudy::PoliticalScience => "Political Science"@,
        FieldsOfStudy::Economics => "Economics"@,
        FieldsOfStudy::Philosophy => "Philosophy"@,
        FieldsOfStudy::Mathematics => "Mathematics"@,
        FieldsOfStudy::Engineering => "Engineering"@,
        FieldsOfStudy::EnvironmentalScience => "Environmental Science"@,
        FieldsOfStudy::AgriculturalAndFoodScience => "Agricultural and Food Science"@,
        FieldsOfStudy::Education => "Education"@,
        FieldsOfStudy::Law => "Law"@,
        FieldsOfStudy::Linguistics => "Linguistics"@,
    }
}

impl FieldsOfStudy {
    /// The wire name of this field of study, e.g. `Computer Science`.
    pub fn to_string(&self) -> (r: String)
        ensures
            r@ == field_of_study_str(*self),
    {
        match self {
            FieldsOfStudy::ComputerScience => String::from_str("Computer Science"),
            FieldsOfStudy::Medicine => String::from_str("Medicine"),
            FieldsOfStudy::Chemistry => String::from_str("Chemistry"),
            FieldsOfStudy::Biology => String::from_str("Biology"),
            FieldsOfStudy::MaterialsScience => String::from_str("Materials Science"),
            FieldsOfStudy::Physics => String::from_str("Physics"),
            FieldsOfStudy::Geology => String::from_str("Geology"),
            FieldsOfStudy::Psychology => String::from_str("Psychology"),
            FieldsOfStudy::Art => String::from_str("Art"),
            FieldsOfStudy::Histroy => String::from_str("Histroy"),
            FieldsOfStudy::Geography => String::from_str("Geography"),
            FieldsOfStudy::Sociology => String::from_str("Sociology"),
            FieldsOfStudy::Business => String::from_str("Business"),
            FieldsOfStudy::PoliticalScience => String::from_str("Political Science"),
            FieldsOfStudy::Economics => String::from_str("Economics"),
            FieldsOfStudy::Philosophy => String::from_str("Philosophy"),
            FieldsOfStudy::Mathematics => String::from_str("Mathematics"),
            FieldsOfStudy::Engineering => String::from_str("Engineering"),
            FieldsOfStudy::EnvironmentalScience => String::from_str("Environmental Science"),
            FieldsOfStudy::AgriculturalAndFoodScience => String::from_str(
                "Agricultural and Food Science",
            ),
            FieldsOfStudy::Education => String::from_str("Education"),
            FieldsOfStudy::Law => String::from_str("Law"),
            FieldsOfStudy::Linguistics => String::from_str("Linguistics"),
        }
    }
}

/// Law: serializing a composite selector over exactly two author-field
/// children yields `authors.<c1>,authors.<c2>`.
pub proof fn lemma_author_composite_pair(c1: AuthorField, c2: AuthorField)
    ensures
        author_fields_prefixed(seq![c1, c2]) == "authors."@ + author_field_str(c1) + ","@
            + "authors."@ + author_field_str(c2),
{
    let s = seq![c1, c2];
    assert(author_fields_tail(s, 2) =~= Seq::<char>::empty());
    assert(author_fields_prefixed(s) =~= "authors."@ + author_field_str(c1) + ","@ + "authors."@
        + author_field_str(c2));
}

/// Law: serializing a composite selector over exactly two paper-field
/// children yields `<prefix><c1>,<prefix><c2>`; the prefix carries its
/// trailing dot, e.g. `citations.`.
pub proof fn lemma_paper_composite_pair(prefix: Seq<char>, c1: PaperField, c2: PaperField)
    ensures
        paper_fields_prefixed(prefix, seq![c1, c2]) == prefix + paper_field_str(c1) + ","@ + prefix
            + paper_field_str(c2),
{
    let s = seq![c1, c2];
    assert(paper_fields_tail(prefix, s, 2) =~= Seq::<char>::empty());
    assert(paper_fields_prefixed(prefix, s) =~= prefix + paper_field_str(c1) + ","@ + prefix
        + paper_field_str(c2));
}

/// Structured venue information attached to a paper record.
#[derive(Clone, Debug)]
pub struct PublicationVenue {
    pub id: String,
    pub name: Option<String>,
    pub venue_type: Option<String>,
    pub url: Option<String>,
    pub alternate_names: Option<Vec<String>>,
}

impl Default for PublicationVenue {
    fn default() -> (r: Self)
        ensures
            r.id@.len() == 0,
            r.name is None,
            r.venue_type is None,
            r.url is None,
            r.alternate_names is None,
    {
        PublicationVenue {
            id: String::new(),
            name: None,
            venue_type: None,
            url: None,
            alternate_names: None,
        }
    }
}

/// Link and status of a paper's open-access PDF.
#[derive(Clone, Debug)]
pub struct OpenAccessPdf {
    pub url: Option<String>,
    pub status: Option<String>,
}

impl Default for OpenAccessPdf {
    fn default() -> (r: Self)
        ensures
            r.url is None,
            r.status is None,
    {
        OpenAccessPdf { url: None, status: None }
    }
}

/// A categorized field-of-study entry on a paper record.
#[derive(Clone, Debug)]
pub struct S2FieldsOfStudy {
    pub category: Option<String>,
    pub source: Option<String>,
}

impl Default for S2FieldsOfStudy {
    fn default() -> (r: Self)
        ensures
            r.category is None,
            r.source is None,
    {
        S2FieldsOfStudy { category: None, source: None }
    }
}

/// Journal information attached to a paper record.
#[derive(Clone, Debug)]
pub struct Journal {
    pub volume: Option<String>,
    pub pages: Option<String>,
    pub name: Option<String>,
}

impl Default for Journal {
    fn default() -> (r: Self)
        ensures
            r.volume is None,
            r.pages is None,
            r.name is None,
    {
        Journal { volume: None, pages: None, name: None }
    }
}

/// Citation-style strings attached to a paper record.
#[derive(Clone, Debug)]
pub struct CitationStyles {
    pub bibtex: Option<String>,
}

impl Default for CitationStyles {
    fn default() -> (r: Self)
        ensures
            r.bibtex is None,
    {
        CitationStyles { bibtex: None }
    }
}

/// An author record; every field is optional because the service echoes
/// back only the attributes that were requested.
#[derive(Clone, Debug)]
pub struct Author {
    pub author_id: Option<String>,
    pub url: Option<String>,
    pub name: Option<String>,
    pub affiliations: Option<Vec<String>>,
    pub homepage: Option<String>,
    pub paper_count: Option<u32>,
    pub citation_count: Option<u32>,
    pub hindex: Option<u32>,
}

impl Default for Author {
    fn default() -> (r: Self)
        ensures
            r.author_id is None,
            r.url is None,
            r.name is None,
            r.affiliations is None,
            r.homepage is None,
            r.paper_count is None,
            r.citation_count is None,
            r.hindex is None,
    {
        Author {
            author_id: None,
            url: None,
            name: None,
            affiliations: None,
            homepage: None,
            paper_count: None,
            citation_count: None,
            hindex: None,
        }
    }
}

/// A paper record; every field is optional because the service echoes back
/// only the attributes that were requested.  Citations and references nest
/// further paper records.
#[derive(Debug)]
pub struct Paper {
    pub paper_id: Option<String>,
    pub corpus_id: Option<u32>,
    pub url: Option<String>,
    pub title: Option<String>,
    pub abstract_text: Option<String>,
    pub venue: Option<String>,
    pub publication_venue: Option<PublicationVenue>,
    pub year: Option<u32>,
    pub reference_count: Option<u32>,
    pub citation_count: Option<u32>,
    pub influential_citation_count: Option<u32>,
    pub is_open_access: Option<bool>,
    pub open_access_pdf: Option<OpenAccessPdf>,
    pub fields_of_study: Option<Vec<String>>,
    pub s2_fields_of_study: Option<Vec<S2FieldsOfStudy>>,
    pub publication_types: Option<Vec<String>>,
    pub publication_date: Option<String>,
    pub journal: Option<Journal>,
    pub citation_styles: Option<CitationStyles>,
    pub authors: Option<Vec<Author>>,
    pub citations: Option<Vec<Paper>>,
    pub references: Option<Vec<Paper>>,
}

impl Default for Paper {
    /// A paper with every optional attribute absent, the value a response
    /// carrying no requested fields maps onto.
    fn default() -> (r: Self)
        ensures
            r.paper_id is None,
            r.corpus_id is None,
            r.url is None,
            r.title is None,
            r.abstract_text is None,
            r.venue is None,
            r.publication_venue is None,
            r.year is None,
            r.reference_count is None,
            r.citation_count is None,
            r.influential_citation_count is None,
            r.is_open_access is None,
            r.open_access_pdf is None,
            r.fields_of_study is None,
            r.s2_fields_of_study is None,
            r.publication_types is None,
            r.publication_date is None,
            r.journal is None,
            r.citation_styles is None,
            r.authors is None,
            r.citations is None,
            r.references is None,
    {
        Paper {
            paper_id: None,
            corpus_id: None,
            url: None,
            title: None,
            abstract_text: None,
            venue: None,
            publication_venue: None,
            year: None,
            reference_count: None,
            citation_count: None,
            influential_citation_count: None,
            is_open_access: None,
            open_access_pdf: None,
            fields_of_study: None,
            s2_fields_of_study: None,
            publication_types: None,
            publication_date: None,
            journal: None,
            citation_styles: None,
            authors: None,
            citations: None,
            references: None,
        }
    }
}

/// The envelope the paper title-search endpoints return: a page of paper
/// records plus pagination bookkeeping.
#[derive(Debug)]
pub struct PaperIds {
    pub total: usize,
    pub offset: usize,
    pub token: String,
    pub data: Vec<Paper>,
}

impl Default for PaperIds {
    fn default() -> (r: Self)
        ensures
            r.total == 0,
            r.offset == 0,
            r.token@.len() == 0,
            r.data@.len() == 0,
    {
        PaperIds { total: 0, offset: 0, token: String::new(), data: Vec::new() }
    }
}

/// A context snippet with the intents attached to it.
#[derive(Clone, Debug)]
pub struct PaperContext {
    pub context: Option<String>,
    pub intents: Option<Vec<String>>,
}

impl Default for PaperContext {
    fn default() -> (r: Self)
        ensures
            r.context is None,
            r.intents is None,
    {
        PaperContext { context: None, intents: None }
    }
}

/// One citation relationship: the citing paper together with the snippets,
/// intent labels and influence flag the service attaches to the relation.
#[derive(Debug)]
pub struct ResponseData {
    pub contexts: Option<Vec<String>>,
    pub intents: Option<Vec<String>>,
    pub contexts_with_intent: Option<Vec<PaperContext>>,
    pub isinfluential: Option<bool>,
    pub citing_paper: Option<Paper>,
}

impl Default for ResponseData {
    fn default() -> (r: Self)
        ensures
            r.contexts is None,
            r.intents is None,
            r.contexts_with_intent is None,
            r.isinfluential is None,
            r.citing_paper is None,
    {
        ResponseData {
            contexts: None,
            intents: None,
            contexts_with_intent: None,
            isinfluential: None,
            citing_paper: None,
        }
    }
}

/// The envelope the citation and reference listing endpoints return.
#[derive(Debug)]
pub struct ResponsePapers {
    pub offset: Option<u64>,
    pub next: Option<u64>,
    pub data: Vec<ResponseData>,
}

impl Default for ResponsePapers {
    fn default() -> (r: Self)
        ensures
            r.offset is None,
            r.next is None,
            r.data@.len() == 0,
    {
        ResponsePapers { offset: None, next: None, data: Vec::new() }
    }
}

/// The envelope the author search endpoint returns.
#[derive(Debug)]
pub struct AuthorSearchResponse {
    pub offset: usize,
    pub next: Option<usize>,
    pub total: usize,
    pub data: Vec<Author>,
}

impl Default for AuthorSearchResponse {
    fn default() -> (r: Self)
        ensures
            r.offset == 0,
            r.next is None,
            r.total == 0,
            r.data@.len() == 0,
    {
        AuthorSearchResponse { offset: 0, next: None, total: 0, data: Vec::new() }
    }
}

/// The envelope the author's-papers endpoint returns.
#[derive(Debug)]
pub struct AuthorPapersResponse {
    pub offset: Option<u64>,
    pub next: Option<u64>,
    pub data: Vec<Paper>,
}

impl Default for AuthorPapersResponse {
    fn default() -> (r: Self)
        ensures
            r.offset is None,
            r.next is None,
            r.data@.len() == 0,
    {
        AuthorPapersResponse { offset: None, next: None, data: Vec::new() }
    }
}

/// The envelope the paper's-authors endpoint returns.
#[derive(Debug)]
pub struct PaperAuthorsResponse {
    pub offset: Option<u64>,
    pub next: Option<u64>,
    pub data: Vec<Author>,
}

impl Default for PaperAuthorsResponse {
    fn default() -> (r: Self)
        ensures
            r.offset is None,
            r.next is None,
            r.data@.len() == 0,
    {
        PaperAuthorsResponse { offset: None, next: None, data: Vec::new() }
    }
}

} // verus!
