//! The decision logic of the request executor.
//!
//! Every endpoint operation shares one algorithm: perform the call, and on
//! a transport failure, a parse failure, or (for the title-search
//! endpoints) an empty result, wait a fixed number of seconds and try the
//! identical request again, up to a caller-supplied budget of attempts.
//! The transport itself lives outside this crate; what is verified here is
//! the decision taken after each attempt (`RetryPolicy::step`), the
//! acceptance checks applied to parsed responses, the JSON body of the
//! batch-fetch request, and the terminal error message that names the
//! operation and the input it was resolving.

use vstd::prelude::*;

use crate::encoding::{join_tail, join_with};
use crate::query::QueryParams;
use crate::structs::{Endpoint, Paper, PaperField, PaperIds};

verus! {

/// What one attempt against the service came to.
#[derive(Clone, Copy, Debug, PartialEq, Eq, Structural)]
pub enum RetryEvent {
    /// The response parsed and passed the endpoint's acceptance check.
    Success,
    /// The response parsed but held no candidate result; only the
    /// title-search endpoints report this event.
    EmptyResult,
    /// The response body did not match the expected schema.
    ParseFailure,
    /// The call itself could not be completed.
    TransportFailure,
}

/// What the executor is to do after an attempt.
#[derive(Clone, Copy, Debug, PartialEq, Eq, Structural)]
pub enum RetryAction {
    /// Return the parsed value; no further attempt is made.
    Deliver,
    /// Wait the given number of seconds, then repeat the identical
    /// request.
    Wait(u64),
    /// The budget is exhausted; fail with the operation's terminal error.
    GiveUp,
}

/// Whether an event sends the executor back for another attempt.
pub open spec fn retryable(ev: RetryEvent) -> bool {
    ev != RetryEvent::Success
}

/// The retry budget and fixed wait of one executor run.
///
/// Per attempt: a success delivers immediately and leaves the budget
/// untouched; every other event consumes one unit of budget, and the
/// executor waits and retries while budget remains, failing terminally
/// when it reaches zero.  A run with budget `n` thus makes at most `n`
/// attempts, and a run whose first `k` attempts fail before a success
/// still holds `n - k` budget.
#[derive(Clone, Copy, Debug, PartialEq, Eq, Structural)]
pub struct RetryPolicy {
    pub remaining: u64,
    pub wait_seconds: u64,
}

impl RetryPolicy {
    /// A fresh policy with the caller's attempt budget and fixed wait.
    pub fn new(max_retry_count: u64, wait_time: u64) -> (r: Self)
        ensures
            r.remaining == max_retry_count,
            r.wait_seconds == wait_time,
    {
        RetryPolicy { remaining: max_retry_count, wait_seconds: wait_time }
    }

    /// Whether another attempt may be made at all; false only when the
    /// budget was zero from the start.
    pub fn should_attempt(&self) -> (r: bool)
        ensures
            r == (self.remaining > 0),
    {
        self.remaining > 0
    }

    /// Advances the policy by one attempt's outcome and returns the
    /// executor's next move.
    pub fn step(&mut self, ev: RetryEvent) -> (a: RetryAction)
        requires
            old(self).remaining > 0,
        ensures
            final(self).wait_seconds == old(self).wait_seconds,
            !retryable(ev) ==> final(self).remaining == old(self).remaining && a
                == RetryAction::Deliver,
            retryable(ev) ==> final(self).remaining == old(self).remaining - 1,
            retryable(ev) && old(self).remaining > 1 ==> a == RetryAction::Wait(
                old(self).wait_seconds,
            ),
            retryable(ev) && old(self).remaining == 1 ==> a == RetryAction::GiveUp,
    {
        match ev {
            RetryEvent::Success => RetryAction::Deliver,
            _ => {
                self.remaining = self.remaining - 1;
                if self.remaining == 0 {
                    RetryAction::GiveUp
                } else {
                    RetryAction::Wait(self.wait_seconds)
                }
            },
        }
    }
}

/// Whether a selector list already requests the paper identifier.
pub open spec fn has_paper_id(fs: Seq<PaperField>) -> bool {
    exists|i: int| 0 <= i < fs.len() && fs[i] is PaperId
}

/// Whether the list holds the `PaperId` selector.
fn contains_paper_id(fields: &Vec<PaperField>) -> (r: bool)
    ensures
        r == has_paper_id(fields@),
{
    let mut i: usize = 0;
    while i < fields.len()
        invariant
            i <= fields@.len(),
            forall|j: int| 0 <= j < i ==> !(fields@[j] is PaperId),
        decreases fields@.len() - i,
    {
        match fields[i] {
            PaperField::PaperId => {
                return true;
            },
            _ => {},
        }
        i = i + 1;
    }
    false
}

/// Makes sure the field selection requests the paper identifier, adding
/// the `PaperId` selector at the end when it is missing; an absent
/// selection becomes one holding only `PaperId`.  The id-addressed
/// endpoints apply this before resolving their URL.  Every other filter
/// is left unchanged.
pub fn with_paper_id_field(params: QueryParams) -> (r: QueryParams)
    ensures
        ({
            let fs0 = match params.fields {
                Some(v) => v@,
                None => Seq::<PaperField>::empty(),
            };
            &&& r.fields matches Some(fs) && (if has_paper_id(fs0) {
                fs@ == fs0
            } else {
                fs@ == fs0.push(PaperField::PaperId)
            })
            &&& has_paper_id(r.fields->Some_0@)
        }),
        r.paper_id == params.paper_id,
        r.query_text == params.query_text,
        r.publication_types == params.publication_types,
        r.open_access_pdf == params.open_access_pdf,
        r.min_citation_count == params.min_citation_count,
        r.publication_date_or_year == params.publication_date_or_year,
        r.year == params.year,
        r.venue == params.venue,
        r.fields_of_study == params.fields_of_study,
        r.offset == params.offset,
        r.limit == params.limit,
        r.token == params.token,
        r.sort == params.sort,
{
    let mut params = params;
    let mut fields: Vec<PaperField> = match params.fields {
        Some(v) => v,
        None => Vec::new(),
    };
    if !contains_paper_id(&fields) {
        fields.push(PaperField::PaperId);
        proof {
            assert(fields@[fields@.len() - 1] is PaperId);
        }
    }
    params.fields = Some(fields);
    params
}

/// The acceptance check of the paper relevance-search endpoint: a parsed
/// page counts as a result only when it holds data and reports a nonzero
/// total; otherwise the attempt counts as an empty result and is retried.
pub fn accept_papers_response(response: PaperIds) -> (r: Option<Vec<Paper>>)
    ensures
        r is None <==> (response.data@.len() == 0 || response.total == 0),
        r matches Some(v) ==> v == response.data,
{
    if response.data.len() == 0 || response.total == 0 {
        None
    } else {
        Some(response.data)
    }
}

/// The acceptance check of the title-match endpoint: the first candidate
/// of a non-empty page, and an empty-result signal otherwise.
pub fn accept_match_response(response: PaperIds) -> (r: Option<Paper>)
    ensures
        r is None <==> response.data@.len() == 0,
        r matches Some(p) ==> p == response.data@[0],
{
    let mut data = response.data;
    if data.len() == 0 {
        None
    } else {
        Some(data.remove(0))
    }
}

/// One identifier wrapped in JSON string quotes.
pub open spec fn quoted(id: Seq<char>) -> Seq<char> {
    seq!['"'] + id + seq!['"']
}

/// The JSON body of the batch-fetch request over the given identifiers.
pub open spec fn bulk_ids_body_str(ids: Seq<Seq<char>>) -> Seq<char> {
    "{\"ids\":["@ + join_with(ids.map_values(|id: Seq<char>| quoted(id)), ","@) + "]}"@
}

/// Builds the JSON body of the batch-fetch request: the identifiers,
/// each in string quotes, comma-joined inside `{"ids":[...]}`.
pub fn bulk_ids_body(paper_ids: &Vec<String>) -> (r: String)
    ensures
        r@ == bulk_ids_body_str(paper_ids@.map_values(|s: String| s@)),
{
    let ghost m = paper_ids@.map_values(|s: String| s@).map_values(|id: Seq<char>| quoted(id));
    let mut out = String::from_str("{\"ids\":[");
    proof {
        reveal_strlit("\"");
    }
    if paper_ids.len() > 0 {
        out.append("\"");
        out.append(paper_ids[0].as_str());
        out.append("\"");
        proof {
            assert(out@ =~= "{\"ids\":["@ + m[0]);
        }
        let mut i: usize = 1;
        while i < paper_ids.len()
            invariant
                1 <= i <= paper_ids@.len(),
                paper_ids@.len() > 0,
                m == paper_ids@.map_values(|s: String| s@).map_values(
                    |id: Seq<char>| quoted(id),
                ),
                "{\"ids\":["@ + join_with(m, ","@) == out@ + join_tail(m, ","@, i as int),
            decreases paper_ids@.len() - i,
        {
            out.append(",");
            out.append("\"");
            out.append(paper_ids[i].as_str());
            out.append("\"");
            proof {
                reveal_strlit("\"");
                assert(","@ + m[i as int] =~= ","@ + seq!['"'] + paper_ids@[i as int]@
                    + seq!['"']);
            }
            i = i + 1;
        }
        proof {
            assert(out@ + join_tail(m, ","@, i as int) =~= out@);
        }
    } else {
        proof {
            assert(join_with(m, ","@) =~= Seq::<char>::empty());
            assert(out@ + join_with(m, ","@) =~= out@);
        }
    }
    out.append("]}");
    out
}

/// The terminal error message of an operation, naming the input it was
/// resolving: the query text for the title-search operations, the paper
/// or author identifier for the id-addressed ones, and nothing for the
/// batch fetch.
pub open spec fn failure_message_str(endpoint: Endpoint, input: Seq<char>) -> Seq<char> {
    match endpoint {
        Endpoint::GetMultiplePpaerDetails => "Failed to get papers"@,
        Endpoint::GetAPaperByTitle => "Failed to get paper id for: "@ + input,
        Endpoint::GetPapersByTitle => "Failed to get paper id for: "@ + input,
        Endpoint::GetPaperDetails => "Failed to get paper details: "@ + input,
        Endpoint::GetAuthorDetails => "Failed to get author details: "@ + input,
        Endpoint::GetReferencesOfAPaper => "Failed to get paper references: "@ + input,
        Endpoint::GetCitationsOfAPaper => "Failed to get paper citations: "@ + input,
        Endpoint::SearchAuthors => "Failed to get authors for: "@ + input,
        Endpoint::GetAuthorPapers => "Failed to get author papers: "@ + input,
        Endpoint::GetPaperAuthors => "Failed to get paper authors: "@ + input,
    }
}

/// Renders the terminal error message an exhausted run surfaces.
pub fn failure_message(endpoint: Endpoint, input: &str) -> (r: String)
    ensures
        r@ == failure_message_str(endpoint, input@),
{
    match endpoint {
        Endpoint::GetMultiplePpaerDetails => String::from_str("Failed to get papers"),
        Endpoint::GetAPaperByTitle => {
            let mut s = String::from_str("Failed to get paper id for: ");
            s.append(input);
            s
        },
        Endpoint::GetPapersByTitle => {
            let mut s = String::from_str("Failed to get paper id for: ");
            s.append(input);
            s
        },
        Endpoint::GetPaperDetails => {
            let mut s = String::from_str("Failed to get paper details: ");
            s.append(input);
            s
        },
        Endpoint::GetAuthorDetails => {
            let mut s = String::from_str("Failed to get author details: ");
            s.append(input);
            s
        },
        Endpoint::GetReferencesOfAPaper => {
            let mut s = String::from_str("Failed to get paper references: ");
            s.append(input);
            s
        },
        Endpoint::GetCitationsOfAPaper => {
            let mut s = String::from_str("Failed to get paper citations: ");
            s.append(input);
            s
        },
        Endpoint::SearchAuthors => {
            let mut s = String::from_str("Failed to get authors for: ");
            s.append(input);
            s
        },
        Endpoint::GetAuthorPapers => {
            let mut s = String::from_str("Failed to get author papers: ");
            s.append(input);
            s
        },
        Endpoint::GetPaperAuthors => {
            let mut s = String::from_str("Failed to get paper authors: ");
            s.append(input);
            s
        },
    }
}

} // verus!
