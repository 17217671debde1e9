use ss_tools::structs::{Endpoint, Paper, PaperField, PaperIds};
use ss_tools::{
    accept_match_response, accept_papers_response, failure_message, with_paper_id_field,
    QueryParams, RetryAction, RetryEvent, RetryPolicy,
};

fn paper_with_id(id: &str) -> Paper {
    let mut paper = Paper::default();
    paper.paper_id = Some(id.to_string());
    paper
}

#[test]
fn two_parse_failures_then_success_leave_three_attempts() {
    let mut policy = RetryPolicy::new(5, 10);
    assert!(policy.should_attempt());
    assert_eq!(policy.step(RetryEvent::ParseFailure), RetryAction::Wait(10));
    assert_eq!(policy.remaining, 4);
    assert_eq!(policy.step(RetryEvent::ParseFailure), RetryAction::Wait(10));
    assert_eq!(policy.remaining, 3);
    assert_eq!(policy.step(RetryEvent::Success), RetryAction::Deliver);
    assert_eq!(policy.remaining, 3);
}

#[test]
fn budget_of_one_fails_after_exactly_one_attempt() {
    let mut policy = RetryPolicy::new(1, 10);
    assert!(policy.should_attempt());
    assert_eq!(policy.step(RetryEvent::TransportFailure), RetryAction::GiveUp);
    assert_eq!(policy.remaining, 0);
    assert!(!policy.should_attempt());
    let message = failure_message(Endpoint::GetAPaperByTitle, "attention is all you need");
    assert_eq!(message, "Failed to get paper id for: attention is all you need");
}

#[test]
fn success_never_consumes_budget() {
    let mut policy = RetryPolicy::new(2, 7);
    assert_eq!(policy.step(RetryEvent::Success), RetryAction::Deliver);
    assert_eq!(policy.step(RetryEvent::Success), RetryAction::Deliver);
    assert_eq!(policy.remaining, 2);
}

#[test]
fn empty_result_is_retryable_for_title_searches() {
    let mut policy = RetryPolicy::new(3, 1);
    assert_eq!(policy.step(RetryEvent::EmptyResult), RetryAction::Wait(1));
    assert_eq!(policy.step(RetryEvent::EmptyResult), RetryAction::Wait(1));
    assert_eq!(policy.step(RetryEvent::EmptyResult), RetryAction::GiveUp);
    assert_eq!(policy.remaining, 0);
}

#[test]
fn papers_response_accepted_only_with_data_and_total() {
    let mut response = PaperIds::default();
    response.total = 2;
    response.data = vec![paper_with_id("a"), paper_with_id("b")];
    let accepted = accept_papers_response(response).expect("non-empty page");
    assert_eq!(accepted.len(), 2);
    assert_eq!(accepted[0].paper_id.as_deref(), Some("a"));

    let mut empty_data = PaperIds::default();
    empty_data.total = 2;
    assert!(accept_papers_response(empty_data).is_none());

    let mut zero_total = PaperIds::default();
    zero_total.data = vec![paper_with_id("a")];
    zero_total.total = 0;
    assert!(accept_papers_response(zero_total).is_none());
}

#[test]
fn match_response_yields_first_candidate() {
    let mut response = PaperIds::default();
    response.total = 2;
    response.data = vec![paper_with_id("first"), paper_with_id("second")];
    let best = accept_match_response(response).expect("non-empty page");
    assert_eq!(best.paper_id.as_deref(), Some("first"));

    assert!(accept_match_response(PaperIds::default()).is_none());
}

#[test]
fn paper_id_field_added_when_missing() {
    let mut query_params = QueryParams::default();
    query_params.fields(vec![PaperField::Title, PaperField::Year]);
    let prepared = with_paper_id_field(query_params);
    assert_eq!(
        prepared.fields,
        Some(vec![PaperField::Title, PaperField::Year, PaperField::PaperId])
    );
}

#[test]
fn paper_id_field_kept_when_present() {
    let mut query_params = QueryParams::default();
    query_params.fields(vec![PaperField::PaperId, PaperField::Title]);
    let prepared = with_paper_id_field(query_params);
    assert_eq!(prepared.fields, Some(vec![PaperField::PaperId, PaperField::Title]));
}

#[test]
fn paper_id_field_created_when_no_selection() {
    let query_params = QueryParams::default();
    let prepared = with_paper_id_field(query_params);
    assert_eq!(prepared.fields, Some(vec![PaperField::PaperId]));
}
