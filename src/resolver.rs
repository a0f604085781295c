//! Per-request redirect decisions.
//!
//! A request either lacks a `Host` header, and is refused without any
//! lookup, or asks for the TXT record of `_redirect.<host>`. The lookup's
//! answer, or its failure, then decides the response.
use vstd::prelude::*;

use crate::answer::{extract, record_text};
use crate::rule::{get_location_url, location};
use crate::status::{code_of, Status};

verus! {

/// A TXT answer: records, each a list of byte chunks.
pub type TxtAnswer = Vec<Vec<Vec<u8>>>;

/// The outcome of one request.
#[derive(Debug, PartialEq, Eq)]
pub enum Decision {
    /// Redirect to `location` with `status`.
    Redirect { status: Status, location: String },
    /// No usable record: answered with 404.
    NotFound,
    /// The request cannot be served: answered with 400 and the message.
    BadRequest(String),
}

/// A decision, as values.
pub enum DecisionView {
    Redirect { status: Status, location: Seq<char> },
    NotFound,
    BadRequest(Seq<char>),
}

impl View for Decision {
    type V = DecisionView;

    open spec fn view(&self) -> DecisionView {
        match self {
            Decision::Redirect { status, location } => DecisionView::Redirect {
                status: *status,
                location: location@,
            },
            Decision::NotFound => DecisionView::NotFound,
            Decision::BadRequest(m) => DecisionView::BadRequest(m@),
        }
    }
}

/// The HTTP status code of a decision.
pub open spec fn http_code_of(d: DecisionView) -> u16 {
    match d {
        DecisionView::Redirect { status, .. } => code_of(status),
        DecisionView::NotFound => 404,
        DecisionView::BadRequest(_) => 400,
    }
}

/// The response body of a decision.
pub open spec fn body_of(d: DecisionView) -> Seq<char> {
    match d {
        DecisionView::Redirect { .. } => seq![],
        DecisionView::NotFound => "404 Not found"@,
        DecisionView::BadRequest(m) => m,
    }
}

/// The message of a request without a `Host` header.
pub open spec fn no_host_message() -> Seq<char> {
    "No Host header"@
}

/// The name whose TXT record holds the rule for `host`.
pub open spec fn query_name_of(host: Seq<char>) -> Seq<char> {
    "_redirect."@ + host
}

/// The decision for a successful lookup.
pub open spec fn answer_decision(path: Seq<char>, answer: Seq<Seq<Seq<u8>>>) -> DecisionView {
    match record_text(answer) {
        None => DecisionView::NotFound,
        Some(line) => {
            let (target, status) = location(path, line);
            DecisionView::Redirect { status, location: target }
        },
    }
}

/// The decision for a lookup outcome; `None` is a failed lookup.
pub open spec fn outcome_decision(
    path: Seq<char>,
    outcome: Option<Seq<Seq<Seq<u8>>>>,
) -> DecisionView {
    match outcome {
        None => DecisionView::NotFound,
        Some(answer) => answer_decision(path, answer),
    }
}

/// The decision for a request, given the outcome of its lookup.
pub open spec fn resolution(
    host: Option<Seq<char>>,
    path: Seq<char>,
    outcome: Option<Seq<Seq<Seq<u8>>>>,
) -> DecisionView {
    match host {
        None => DecisionView::BadRequest(no_host_message()),
        Some(_) => outcome_decision(path, outcome),
    }
}

/// A lookup outcome as values; `None` is a failed lookup.
pub open spec fn outcome_view<E>(outcome: Result<TxtAnswer, E>) -> Option<Seq<Seq<Seq<u8>>>> {
    match outcome {
        Ok(answer) => Some(answer.deep_view()),
        Err(_) => None,
    }
}

impl Decision {
    /// The HTTP status code of the response.
    pub fn http_code(&self) -> (r: u16)
        ensures
            r == http_code_of(self@),
    {
        match self {
            Decision::Redirect { status, .. } => status.code(),
            Decision::NotFound => 404,
            Decision::BadRequest(_) => 400,
        }
    }

    /// The body of the response.
    pub fn body(&self) -> (r: String)
        ensures
            r@ == body_of(self@),
    {
        match self {
            Decision::Redirect { .. } => String::new(),
            Decision::NotFound => "404 Not found".to_owned(),
            Decision::BadRequest(m) => m.clone(),
        }
    }
}

/// The name to look up for `host`.
pub fn query_name(host: &str) -> (r: String)
    ensures
        r@ == query_name_of(host@),
{
    let mut r = "_redirect.".to_owned();
    r.append(host);
    r
}

/// The decision for a successful lookup.
pub fn decide(path: &str, answer: &TxtAnswer) -> (r: Decision)
    ensures
        r@ == answer_decision(path@, answer.deep_view()),
{
    match extract(answer) {
        None => Decision::NotFound,
        Some(line) => {
            let (location, status) = get_location_url(path, line.as_str());
            Decision::Redirect { status, location }
        },
    }
}

/// The decision for a lookup outcome: every failure gives `NotFound`.
pub fn finish<E>(path: &str, outcome: Result<TxtAnswer, E>) -> (r: Decision)
    ensures
        r@ == outcome_decision(path@, outcome_view(outcome)),
        outcome is Err ==> r@ == DecisionView::NotFound,
{
    match outcome {
        Ok(answer) => decide(path, &answer),
        Err(_) => Decision::NotFound,
    }
}

/// What a request needs next.
#[derive(Debug, PartialEq, Eq)]
pub enum Step {
    /// Look up the TXT record of this name, then call `finish`.
    Lookup(String),
    /// The request is decided without a lookup.
    Done(Decision),
}

/// The first step of a request: a lookup of `_redirect.<host>`, or a refusal
/// when the `Host` header is absent.
pub fn begin(host: Option<&str>) -> (r: Step)
    ensures
        host is None ==> (r matches Step::Done(d) && d@ == DecisionView::BadRequest(
            no_host_message(),
        )),
        host matches Some(h) ==> (r matches Step::Lookup(n) && n@ == query_name_of(h@)),
{
    match host {
        None => Step::Done(Decision::BadRequest("No Host header".to_owned())),
        Some(h) => Step::Lookup(query_name(h)),
    }
}

/// Decides a request, calling `lookup` on the query name when the `Host`
/// header is present and not at all when it is absent.
pub fn resolve<E, F: FnOnce(String) -> Result<TxtAnswer, E>>(
    host: Option<&str>,
    path: &str,
    lookup: F,
) -> (r: Decision)
    requires
        host matches Some(h) ==> forall|n: String|
            n@ == query_name_of(h@) ==> #[trigger] lookup.requires((n,)),
    ensures
        host is None ==> r@ == resolution(None, path@, None),
        host matches Some(h) ==> exists|n: String, o: Result<TxtAnswer, E>|
            n@ == query_name_of(h@) && #[trigger] lookup.ensures((n,), o) && r@ == resolution(
                Some(h@),
                path@,
                outcome_view(o),
            ),
{
    match begin(host) {
        Step::Done(d) => d,
        Step::Lookup(name) => {
            let outcome = lookup(name);
            finish(path, outcome)
        },
    }
}

/// A decision is a function of the host, the path and the lookup outcome:
/// two requests that agree on those are decided alike.
pub proof fn lemma_resolution_deterministic(
    host: Option<Seq<char>>,
    path: Seq<char>,
    outcome: Option<Seq<Seq<Seq<u8>>>>,
    d1: DecisionView,
    d2: DecisionView,
)
    requires
        d1 == resolution(host, path, outcome),
        d2 == resolution(host, path, outcome),
    ensures
        d1 == d2,
{
}

/// A request without a `Host` header is a bad request, whatever a lookup
/// would have returned.
pub proof fn lemma_missing_host_is_bad_request(
    path: Seq<char>,
    outcome: Option<Seq<Seq<Seq<u8>>>>,
)
    ensures
        resolution(None, path, outcome) == DecisionView::BadRequest(no_host_message()),
        http_code_of(resolution(None, path, outcome)) == 400,
{
}

/// An answer without records gives "not found", with the body
/// `404 Not found`.
pub proof fn lemma_empty_answer_not_found(host: Seq<char>, path: Seq<char>)
    ensures
        resolution(Some(host), path, Some(seq![])) == DecisionView::NotFound,
        body_of(DecisionView::NotFound) == "404 Not found"@,
        http_code_of(DecisionView::NotFound) == 404,
{
}

/// A failed lookup gives "not found".
pub proof fn lemma_failed_lookup_not_found(host: Seq<char>, path: Seq<char>)
    ensures
        resolution(Some(host), path, None) == DecisionView::NotFound,
{
}

} // verus!
