//! The query-parameter builder.
//!
//! `QueryParams` accumulates the optional filters a caller wants to send,
//! and `build` serializes them into a URL query string: empty when nothing
//! is set, otherwise `?` followed by `key=value` pairs joined by `&` in
//! fixed declaration order.  Free-text values are percent-encoded; numeric
//! values, date strings, pagination tokens and sort specs are not.  The
//! open-access filter contributes its bare key with no value whenever it
//! was set, whatever boolean the caller passed.  The paper or author
//! identifier is carried out of band: it is embedded in the URL path by the
//! endpoint resolver and never appears in the query string.

use vstd::prelude::*;

use crate::encoding::{dec_str, encode, encode_seq, join_tail, join_with, u64_dec_str};
use crate::structs::{
    paper_field_str,
    publication_type_str,
    field_of_study_str,
    PaperField,
    PublicationTypes,
    FieldsOfStudy,
};

verus! {

/// The optional filters of one request, in the declaration order their
/// serialized forms take in the query string.
#[derive(Debug)]
pub struct QueryParams {
    pub paper_id: String,
    pub query_text: Option<String>,
    pub fields: Option<Vec<PaperField>>,
    pub publication_types: Option<Vec<PublicationTypes>>,
    pub open_access_pdf: Option<bool>,
    pub min_citation_count: Option<u32>,
    pub publication_date_or_year: Option<String>,
    pub year: Option<String>,
    pub venue: Option<Vec<String>>,
    pub fields_of_study: Option<Vec<FieldsOfStudy>>,
    pub offset: Option<u64>,
    pub limit: Option<u64>,
    pub token: Option<String>,
    pub sort: Option<String>,
}

impl Default for QueryParams {
    /// A builder with no filter set; `build` on it yields the empty string.
    fn default() -> (r: Self)
        ensures
            r.paper_id@.len() == 0,
            r.query_text is None,
            r.fields is None,
            r.publication_types is None,
            r.open_access_pdf is None,
            r.min_citation_count is None,
            r.publication_date_or_year is None,
            r.year is None,
            r.venue is None,
            r.fields_of_study is None,
            r.offset is None,
            r.limit is None,
            r.token is None,
            r.sort is None,
    {
        QueryParams {
            paper_id: String::new(),
            query_text: None,
            fields: None,
            publication_types: None,
            open_access_pdf: None,
            min_citation_count: None,
            publication_date_or_year: None,
            year: None,
            venue: None,
            fields_of_study: None,
            offset: None,
            limit: None,
            token: None,
            sort: None,
        }
    }
}

/// The `query=` part, percent-encoded.
pub open spec fn seg_query(p: QueryParams) -> Seq<Seq<char>> {
    match p.query_text {
        Some(q) => seq!["query="@ + encode_seq(q@)],
        None => Seq::<Seq<char>>::empty(),
    }
}

/// The `fields=` part: each selector serialized and percent-encoded,
/// joined by commas.
pub open spec fn encoded_paper_fields(fs: Seq<PaperField>) -> Seq<char> {
    join_with(fs.map_values(|f: PaperField| encode_seq(paper_field_str(f))), ","@)
}

/// The `fields=` part of the query string.
pub open spec fn seg_fields(p: QueryParams) -> Seq<Seq<char>> {
    match p.fields {
        Some(fs) => seq!["fields="@ + encoded_paper_fields(fs@)],
        None => Seq::<Seq<char>>::empty(),
    }
}

/// Publication types, each percent-encoded, joined by commas.
pub open spec fn encoded_publication_types(ts: Seq<PublicationTypes>) -> Seq<char> {
    join_with(ts.map_values(|t: PublicationTypes| encode_seq(publication_type_str(t))), ","@)
}

/// The `publicationTypes=` part of the query string.
pub open spec fn seg_publication_types(p: QueryParams) -> Seq<Seq<char>> {
    match p.publication_types {
        Some(ts) => seq!["publicationTypes="@ + encoded_publication_types(ts@)],
        None => Seq::<Seq<char>>::empty(),
    }
}

/// The presence-only `openAccessPdf` flag: the bare key appears whenever
/// the filter was set, whatever its boolean argument was.
pub open spec fn seg_open_access(p: QueryParams) -> Seq<Seq<char>> {
    if p.open_access_pdf is Some {
        seq!["openAccessPdf"@]
    } else {
        Seq::<Seq<char>>::empty()
    }
}

/// The `minCitationCount=` part of the query string.
pub open spec fn seg_min_citation(p: QueryParams) -> Seq<Seq<char>> {
    match p.min_citation_count {
        Some(n) => seq!["minCitationCount="@ + dec_str(n as int)],
        None => Seq::<Seq<char>>::empty(),
    }
}

/// The `publicationDateOrYear=` part, passed through unencoded.
pub open spec fn seg_date_or_year(p: QueryParams) -> Seq<Seq<char>> {
    match p.publication_date_or_year {
        Some(s) => seq!["publicationDateOrYear="@ + s@],
        None => Seq::<Seq<char>>::empty(),
    }
}

/// The `year=` part, passed through unencoded.
pub open spec fn seg_year(p: QueryParams) -> Seq<Seq<char>> {
    match p.year {
        Some(s) => seq!["year="@ + s@],
        None => Seq::<Seq<char>>::empty(),
    }
}

/// Venue names, each percent-encoded, joined by commas.
pub open spec fn encoded_venues(vs: Seq<Seq<char>>) -> Seq<char> {
    join_with(vs.map_values(|v: Seq<char>| encode_seq(v)), ","@)
}

/// The `venue=` part of the query string.
pub open spec fn seg_venue(p: QueryParams) -> Seq<Seq<char>> {
    match p.venue {
        Some(vs) => seq!["venue="@ + encoded_venues(vs@.map_values(|s: String| s@))],
        None => Seq::<Seq<char>>::empty(),
    }
}

/// Fields of study, each percent-encoded, joined by commas.
pub open spec fn encoded_fields_of_study(fs: Seq<FieldsOfStudy>) -> Seq<char> {
    join_with(fs.map_values(|f: FieldsOfStudy| encode_seq(field_of_study_str(f))), ","@)
}

/// The `fieldsOfStudy=` part of the query string.
pub open spec fn seg_fields_of_study(p: QueryParams) -> Seq<Seq<char>> {
    match p.fields_of_study {
        Some(fs) => seq!["fieldsOfStudy="@ + encoded_fields_of_study(fs@)],
        None => Seq::<Seq<char>>::empty(),
    }
}

/// The `offset=` part of the query string.
pub open spec fn seg_offset(p: QueryParams) -> Seq<Seq<char>> {
    match p.offset {
        Some(n) => seq!["offset="@ + dec_str(n as int)],
        None => Seq::<Seq<char>>::empty(),
    }
}

/// The `limit=` part of the query string.
pub open spec fn seg_limit(p: QueryParams) -> Seq<Seq<char>> {
    match p.limit {
        Some(n) => seq!["limit="@ + dec_str(n as int)],
        None => Seq::<Seq<char>>::empty(),
    }
}

/// The `token=` part, passed through unencoded.
pub open spec fn seg_token(p: QueryParams) -> Seq<Seq<char>> {
    match p.token {
        Some(s) => seq!["token="@ + s@],
        None => Seq::<Seq<char>>::empty(),
    }
}

/// The `sort=` part, passed through unencoded.
pub open spec fn seg_sort(p: QueryParams) -> Seq<Seq<char>> {
    match p.sort {
        Some(s) => seq!["sort="@ + s@],
        None => Seq::<Seq<char>>::empty(),
    }
}

/// The first half of the declaration order: query text through year.
pub open spec fn front_parts(p: QueryParams) -> Seq<Seq<char>> {
    seg_query(p) + seg_fields(p) + seg_publication_types(p) + seg_open_access(p) + seg_min_citation(
        p,
    ) + seg_date_or_year(p) + seg_year(p)
}

/// The second half of the declaration order: venue through sort.
pub open spec fn back_parts(p: QueryParams) -> Seq<Seq<char>> {
    seg_venue(p) + seg_fields_of_study(p) + seg_offset(p) + seg_limit(p) + seg_token(p) + seg_sort(
        p,
    )
}

/// The serialized `key=value` parts that are present, in fixed declaration
/// order.
pub open spec fn query_parts(p: QueryParams) -> Seq<Seq<char>> {
    front_parts(p) + back_parts(p)
}

/// The whole query string: empty when no filter is set, otherwise `?`
/// followed by the parts joined by `&`.
pub open spec fn build_str(p: QueryParams) -> Seq<char> {
    if query_parts(p).len() == 0 {
        Seq::<char>::empty()
    } else {
        "?"@ + join_with(query_parts(p), "&"@)
    }
}

/// Law: a builder with no filter set serializes to the empty string,
/// whatever identifier it carries for the URL path.
pub proof fn lemma_build_empty_when_unset(p: QueryParams)
    requires
        p.query_text is None,
        p.fields is None,
        p.publication_types is None,
        p.open_access_pdf is None,
        p.min_citation_count is None,
        p.publication_date_or_year is None,
        p.year is None,
        p.venue is None,
        p.fields_of_study is None,
        p.offset is None,
        p.limit is None,
        p.token is None,
        p.sort is None,
    ensures
        build_str(p) == Seq::<char>::empty(),
{
    assert(query_parts(p) =~= Seq::<Seq<char>>::empty());
}

impl QueryParams {
    /// Sets the paper or author identifier embedded in the URL path.
    pub fn paper_id(&mut self, paper_id: &str)
        ensures
            final(self).paper_id@ == paper_id@,
            final(self).query_text == old(self).query_text,
            final(self).fields == old(self).fields,
            final(self).publication_types == old(self).publication_types,
            final(self).open_access_pdf == old(self).open_access_pdf,
            final(self).min_citation_count == old(self).min_citation_count,
            final(self).publication_date_or_year == old(self).publication_date_or_year,
            final(self).year == old(self).year,
            final(self).venue == old(self).venue,
            final(self).fields_of_study == old(self).fields_of_study,
            final(self).offset == old(self).offset,
            final(self).limit == old(self).limit,
            final(self).token == old(self).token,
            final(self).sort == old(self).sort,
    {
        self.paper_id = String::from_str(paper_id);
    }

    /// Sets the free-text query.
    pub fn query_text(&mut self, query_text: &str)
        ensures
            final(self).query_text matches Some(q) && q@ == query_text@,
            final(self).paper_id == old(self).paper_id,
            final(self).fields == old(self).fields,
            final(self).publication_types == old(self).publication_types,
            final(self).open_access_pdf == old(self).open_access_pdf,
            final(self).min_citation_count == old(self).min_citation_count,
            final(self).publication_date_or_year == old(self).publication_date_or_year,
            final(self).year == old(self).year,
            final(self).venue == old(self).venue,
            final(self).fields_of_study == old(self).fields_of_study,
            final(self).offset == old(self).offset,
            final(self).limit == old(self).limit,
            final(self).token == old(self).token,
            final(self).sort == old(self).sort,
    {
        self.query_text = Some(String::from_str(query_text));
    }

    /// Sets the paper-field selection.
    pub fn fields(&mut self, fields: Vec<PaperField>)
        ensures
            *final(self) == (QueryParams { fields: Some(fields), ..*old(self) }),
    {
        self.fields = Some(fields);
    }

    /// Sets the publication-type filter.
    pub fn publication_types(&mut self, publication_types: Vec<PublicationTypes>)
        ensures
            *final(self) == (QueryParams {
                publication_types: Some(publication_types),
                ..*old(self)
            }),
    {
        self.publication_types = Some(publication_types);
    }

    /// Sets the open-access filter; serialization depends only on the
    /// filter being set, not on the boolean passed here.
    pub fn open_access_pdf(&mut self, open_access_pdf: bool)
        ensures
            *final(self) == (QueryParams {
                open_access_pdf: Some(open_access_pdf),
                ..*old(self)
            }),
    {
        self.open_access_pdf = Some(open_access_pdf);
    }

    /// Sets the minimum-citation-count filter.
    pub fn min_citation_count(&mut self, min_citation_count: u32)
        ensures
            *final(self) == (QueryParams {
                min_citation_count: Some(min_citation_count),
                ..*old(self)
            }),
    {
        self.min_citation_count = Some(min_citation_count);
    }

    /// Sets the publication-date-or-year range filter.
    pub fn publication_date_or_year(&mut self, publication_date_or_year: &str)
        ensures
            final(self).publication_date_or_year matches Some(s) && s@
                == publication_date_or_year@,
            final(self).paper_id == old(self).paper_id,
            final(self).query_text == old(self).query_text,
            final(self).fields == old(self).fields,
            final(self).publication_types == old(self).publication_types,
            final(self).open_access_pdf == old(self).open_access_pdf,
            final(self).min_citation_count == old(self).min_citation_count,
            final(self).year == old(self).year,
            final(self).venue == old(self).venue,
            final(self).fields_of_study == old(self).fields_of_study,
            final(self).offset == old(self).offset,
            final(self).limit == old(self).limit,
            final(self).token == old(self).token,
            final(self).sort == old(self).sort,
    {
        self.publication_date_or_year = Some(String::from_str(publication_date_or_year));
    }

    /// Sets the year range filter.
    pub fn year(&mut self, year: &str)
        ensures
            final(self).year matches Some(s) && s@ == year@,
            final(self).paper_id == old(self).paper_id,
            final(self).query_text == old(self).query_text,
            final(self).fields == old(self).fields,
            final(self).publication_types == old(self).publication_types,
            final(self).open_access_pdf == old(self).open_access_pdf,
            final(self).min_citation_count == old(self).min_citation_count,
            final(self).publication_date_or_year == old(self).publication_date_or_year,
            final(self).venue == old(self).venue,
            final(self).fields_of_study == old(self).fields_of_study,
            final(self).offset == old(self).offset,
            final(self).limit == old(self).limit,
            final(self).token == old(self).token,
            final(self).sort == old(self).sort,
    {
        self.year = Some(String::from_str(year));
    }

    /// Sets the venue filter.
    pub fn venue(&mut self, venue: Vec<&str>)
        ensures
            final(self).venue matches Some(v) && v@.map_values(|s: String| s@)
                == venue@.map_values(|s: &str| s@),
            final(self).paper_id == old(self).paper_id,
            final(self).query_text == old(self).query_text,
            final(self).fields == old(self).fields,
            final(self).publication_types == old(self).publication_types,
            final(self).open_access_pdf == old(self).open_access_pdf,
            final(self).min_citation_count == old(self).min_citation_count,
            final(self).publication_date_or_year == old(self).publication_date_or_year,
            final(self).year == old(self).year,
            final(self).fields_of_study == old(self).fields_of_study,
            final(self).offset == old(self).offset,
            final(self).limit == old(self).limit,
            final(self).token == old(self).token,
            final(self).sort == old(self).sort,
    {
        let mut out: Vec<String> = Vec::new();
        let mut i: usize = 0;
        while i < venue.len()
            invariant
                i <= venue@.len(),
                out@.len() == i,
                forall|j: int| 0 <= j < i ==> out@[j]@ == venue@[j]@,
            decreases venue@.len() - i,
        {
            out.push(String::from_str(venue[i]));
            i = i + 1;
        }
        proof {
            assert(out@.map_values(|s: String| s@) =~= venue@.map_values(|s: &str| s@));
        }
        self.venue = Some(out);
    }

    /// Sets the field-of-study filter.
    pub fn fields_of_study(&mut self, fields_of_study: Vec<FieldsOfStudy>)
        ensures
            *final(self) == (QueryParams {
                fields_of_study: Some(fields_of_study),
                ..*old(self)
            }),
    {
        self.fields_of_study = Some(fields_of_study);
    }

    /// Sets the pagination offset.
    pub fn offset(&mut self, offset: u64)
        ensures
            *final(self) == (QueryParams { offset: Some(offset), ..*old(self) }),
    {
        self.offset = Some(offset);
    }

    /// Sets the page-size limit.
    pub fn limit(&mut self, limit: u64)
        ensures
            *final(self) == (QueryParams { limit: Some(limit), ..*old(self) }),
    {
        self.limit = Some(limit);
    }

    /// Sets the continuation token.
    pub fn token(&mut self, token: &str)
        ensures
            final(self).token matches Some(s) && s@ == token@,
            final(self).paper_id == old(self).paper_id,
            final(self).query_text == old(self).query_text,
            final(self).fields == old(self).fields,
            final(self).publication_types == old(self).publication_types,
            final(self).open_access_pdf == old(self).open_access_pdf,
            final(self).min_citation_count == old(self).min_citation_count,
            final(self).publication_date_or_year == old(self).publication_date_or_year,
            final(self).year == old(self).year,
            final(self).venue == old(self).venue,
            final(self).fields_of_study == old(self).fields_of_study,
            final(self).offset == old(self).offset,
            final(self).limit == old(self).limit,
            final(self).sort == old(self).sort,
    {
        self.token = Some(String::from_str(token));
    }

    /// Sets the sort specification.
    pub fn sort(&mut self, sort: &str)
        ensures
            final(self).sort matches Some(s) && s@ == sort@,
            final(self).paper_id == old(self).paper_id,
            final(self).query_text == old(self).query_text,
            final(self).fields == old(self).fields,
            final(self).publication_types == old(self).publication_types,
            final(self).open_access_pdf == old(self).open_access_pdf,
            final(self).min_citation_count == old(self).min_citation_count,
            final(self).publication_date_or_year == old(self).publication_date_or_year,
            final(self).year == old(self).year,
            final(self).venue == old(self).venue,
            final(self).fields_of_study == old(self).fields_of_study,
            final(self).offset == old(self).offset,
            final(self).limit == old(self).limit,
            final(self).token == old(self).token,
    {
        self.sort = Some(String::from_str(sort));
    }

    /// Serializes the paper-field selection: each selector's wire fragment
    /// percent-encoded, joined by commas.
    fn fields2string(&self, fields: &Vec<PaperField>) -> (r: String)
        ensures
            r@ == encoded_paper_fields(fields@),
    {
        let ghost m = fields@.map_values(|f: PaperField| encode_seq(paper_field_str(f)));
        let mut out = String::new();
        if fields.len() == 0 {
            return out;
        }
        let s0 = fields[0].to_string();
        let e0 = encode(s0.as_str());
        out.append(e0.as_str());
        let mut i: usize = 1;
        while i < fields.len()
            invariant
                1 <= i <= fields@.len(),
                fields@.len() > 0,
                m == fields@.map_values(|f: PaperField| encode_seq(paper_field_str(f))),
                join_with(m, ","@) == out@ + join_tail(m, ","@, i as int),
            decreases fields@.len() - i,
        {
            out.append(",");
            let si = fields[i].to_string();
            let ei = encode(si.as_str());
            out.append(ei.as_str());
            i = i + 1;
        }
        proof {
            assert(out@ + join_tail(m, ","@, i as int) =~= out@);
        }
        out
    }

    /// Serializes the publication-type filter, each name percent-encoded.
    fn publication_types2string(&self, publication_types: &Vec<PublicationTypes>) -> (r: String)
        ensures
            r@ == encoded_publication_types(publication_types@),
    {
        let ghost m = publication_types@.map_values(
            |t: PublicationTypes| encode_seq(publication_type_str(t)),
        );
        let mut out = String::new();
        if publication_types.len() == 0 {
            return out;
        }
        let s0 = publication_types[0].to_string();
        let e0 = encode(s0.as_str());
        out.append(e0.as_str());
        let mut i: usize = 1;
        while i < publication_types.len()
            invariant
                1 <= i <= publication_types@.len(),
                publication_types@.len() > 0,
                m == publication_types@.map_values(
                    |t: PublicationTypes| encode_seq(publication_type_str(t)),
                ),
                join_with(m, ","@) == out@ + join_tail(m, ","@, i as int),
            decreases publication_types@.len() - i,
        {
            out.append(",");
            let si = publication_types[i].to_string();
            let ei = encode(si.as_str());
            out.append(ei.as_str());
            i = i + 1;
        }
        proof {
            assert(out@ + join_tail(m, ","@, i as int) =~= out@);
        }
        out
    }

    /// Serializes the field-of-study filter, each name percent-encoded.
    fn fields_of_study2string(&self, fields_of_study: &Vec<FieldsOfStudy>) -> (r: String)
        ensures
            r@ == encoded_fields_of_study(fields_of_study@),
    {
        let ghost m = fields_of_study@.map_values(
            |f: FieldsOfStudy| encode_seq(field_of_study_str(f)),
        );
        let mut out = String::new();
        if fields_of_study.len() == 0 {
            return out;
        }
        let s0 = fields_of_study[0].to_string();
        let e0 = encode(s0.as_str());
        out.append(e0.as_str());
        let mut i: usize = 1;
        while i < fields_of_study.len()
            invariant
                1 <= i <= fields_of_study@.len(),
                fields_of_study@.len() > 0,
                m == fields_of_study@.map_values(
                    |f: FieldsOfStudy| encode_seq(field_of_study_str(f)),
                ),
                join_with(m, ","@) == out@ + join_tail(m, ","@, i as int),
            decreases fields_of_study@.len() - i,
        {
            out.append(",");
            let si = fields_of_study[i].to_string();
            let ei = encode(si.as_str());
            out.append(ei.as_str());
            i = i + 1;
        }
        proof {
            assert(out@ + join_tail(m, ","@, i as int) =~= out@);
        }
        out
    }

    /// Serializes the venue filter, each name percent-encoded.
    fn venues2string(&self, venue: &Vec<String>) -> (r: String)
        ensures
            r@ == encoded_venues(venue@.map_values(|s: String| s@)),
    {
        let ghost m = venue@.map_values(|s: String| s@).map_values(
            |v: Seq<char>| encode_seq(v),
        );
        let mut out = String::new();
        if venue.len() == 0 {
            return out;
        }
        let e0 = encode(venue[0].as_str());
        out.append(e0.as_str());
        let mut i: usize = 1;
        while i < venue.len()
            invariant
                1 <= i <= venue@.len(),
                venue@.len() > 0,
                m == venue@.map_values(|s: String| s@).map_values(|v: Seq<char>| encode_seq(v)),
                join_with(m, ","@) == out@ + join_tail(m, ","@, i as int),
            decreases venue@.len() - i,
        {
            out.append(",");
            let ei = encode(venue[i].as_str());
            out.append(ei.as_str());
            i = i + 1;
        }
        proof {
            assert(out@ + join_tail(m, ","@, i as int) =~= out@);
        }
        out
    }

    /// Collects the serialized parts for the filters up to `year`.
    fn collect_front_parts(&self) -> (parts: Vec<String>)
        ensures
            parts@.map_values(|x: String| x@) == front_parts(*self),
    {
        let mut parts: Vec<String> = Vec::new();

        if let Some(query_text) = &self.query_text {
            let mut s = String::from_str("query=");
            let e = encode(query_text.as_str());
            s.append(e.as_str());
            parts.push(s);
        }
        proof {
            assert(parts@.map_values(|x: String| x@) =~= seg_query(*self));
        }

        if let Some(fields) = &self.fields {
            let mut s = String::from_str("fields=");
            let f = self.fields2string(fields);
            s.append(f.as_str());
            parts.push(s);
        }
        proof {
            assert(parts@.map_values(|x: String| x@) =~= seg_query(*self) + seg_fields(*self));
        }

        if let Some(publication_types) = &self.publication_types {
            let mut s = String::from_str("publicationTypes=");
            let t = self.publication_types2string(publication_types);
            s.append(t.as_str());
            parts.push(s);
        }
        proof {
            assert(parts@.map_values(|x: String| x@) =~= seg_query(*self) + seg_fields(*self)
                + seg_publication_types(*self));
        }

        if self.open_access_pdf.is_some() {
            parts.push(String::from_str("openAccessPdf"));
        }
        proof {
            assert(parts@.map_values(|x: String| x@) =~= seg_query(*self) + seg_fields(*self)
                + seg_publication_types(*self) + seg_open_access(*self));
        }

        if let Some(min_citation_count) = &self.min_citation_count {
            let mut s = String::from_str("minCitationCount=");
            let n = u64_dec_str(*min_citation_count as u64);
            s.append(n.as_str());
            parts.push(s);
        }
        proof {
            assert(parts@.map_values(|x: String| x@) =~= seg_query(*self) + seg_fields(*self)
                + seg_publication_types(*self) + seg_open_access(*self) + seg_min_citation(*self));
        }

        if let Some(publication_date_or_year) = &self.publication_date_or_year {
            let mut s = String::from_str("publicationDateOrYear=");
            s.append(publication_date_or_year.as_str());
            parts.push(s);
        }
        proof {
            assert(parts@.map_values(|x: String| x@) =~= seg_query(*self) + seg_fields(*self)
                + seg_publication_types(*self) + seg_open_access(*self) + seg_min_citation(*self)
                + seg_date_or_year(*self));
        }

        if let Some(year) = &self.year {
            let mut s = String::from_str("year=");
            s.append(year.as_str());
            parts.push(s);
        }
        proof {
            assert(parts@.map_values(|x: String| x@) =~= seg_query(*self) + seg_fields(*self)
                + seg_publication_types(*self) + seg_open_access(*self) + seg_min_citation(*self)
                + seg_date_or_year(*self) + seg_year(*self));
        }
        parts
    }

    /// Collects the serialized parts for the filters from `venue` onward.
    fn collect_back_parts(&self) -> (parts: Vec<String>)
        ensures
            parts@.map_values(|x: String| x@) == back_parts(*self),
    {
        let mut parts: Vec<String> = Vec::new();

        if let Some(venue) = &self.venue {
            let mut s = String::from_str("venue=");
            let v = self.venues2string(venue);
            s.append(v.as_str());
            parts.push(s);
        }
        proof {
            assert(parts@.map_values(|x: String| x@) =~= seg_venue(*self));
        }

        if let Some(fields_of_study) = &self.fields_of_study {
            let mut s = String::from_str("fieldsOfStudy=");
            let f = self.fields_of_study2string(fields_of_study);
            s.append(f.as_str());
            parts.push(s);
        }
        proof {
            assert(parts@.map_values(|x: String| x@) =~= seg_venue(*self)
                + seg_fields_of_study(*self));
        }

        if let Some(offset) = &self.offset {
            let mut s = String::from_str("offset=");
            let n = u64_dec_str(*offset);
            s.append(n.as_str());
            parts.push(s);
        }
        proof {
            assert(parts@.map_values(|x: String| x@) =~= seg_venue(*self)
                + seg_fields_of_study(*self) + seg_offset(*self));
        }

        if let Some(limit) = &self.limit {
            let mut s = String::from_str("limit=");
            let n = u64_dec_str(*limit);
            s.append(n.as_str());
            parts.push(s);
        }
        proof {
            assert(parts@.map_values(|x: String| x@) =~= seg_venue(*self)
                + seg_fields_of_study(*self) + seg_offset(*self) + seg_limit(*self));
        }

        if let Some(token) = &self.token {
            let mut s = String::from_str("token=");
            s.append(token.as_str());
            parts.push(s);
        }
        proof {
            assert(parts@.map_values(|x: String| x@) =~= seg_venue(*self)
                + seg_fields_of_study(*self) + seg_offset(*self) + seg_limit(*self) + seg_token(
                *self,
            ));
        }

        if let Some(sort) = &self.sort {
            let mut s = String::from_str("sort=");
            s.append(sort.as_str());
            parts.push(s);
        }
        proof {
            assert(parts@.map_values(|x: String| x@) =~= back_parts(*self));
        }
        parts
    }

    /// Serializes the filters that are set into a query string: empty when
    /// none is set, otherwise `?` followed by `key=value` pairs joined by
    /// `&` in fixed declaration order.  Pure: the builder is not changed,
    /// and repeated calls yield the same string.
    pub fn build(&self) -> (r: String)
        ensures
            r@ == build_str(*self),
    {
        let mut parts = self.collect_front_parts();
        let mut back = self.collect_back_parts();
        parts.append(&mut back);
        proof {
            assert(parts@.map_values(|x: String| x@) =~= query_parts(*self));
        }
        let ghost m = parts@.map_values(|x: String| x@);
        if parts.len() == 0 {
            return String::new();
        }
        let mut out = String::from_str("?");
        out.append(parts[0].as_str());
        let mut i: usize = 1;
        while i < parts.len()
            invariant
                1 <= i <= parts@.len(),
                parts@.len() > 0,
                m == parts@.map_values(|x: String| x@),
                "?"@ + join_with(m, "&"@) == out@ + join_tail(m, "&"@, i as int),
            decreases parts@.len() - i,
        {
            out.append("&");
            out.append(parts[i].as_str());
            i = i + 1;
        }
        proof {
            assert(out@ + join_tail(m, "&"@, i as int) =~= out@);
        }
        out
    }
}

} // verus!
