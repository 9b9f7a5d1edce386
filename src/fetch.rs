//! The decisions of a fetch: which page to request next, when a page's test
//! cases are accepted, and when the fetch has failed. The caller performs each
//! request and reports what came back.
use vstd::prelude::*;

use crate::page::{cases_from_page, cases_view, page_cases, TestCase};
use crate::problem::{
    candidate_url_seq, contest_part, index_part, valid_problem_id, ProblemRef,
};

verus! {

/// Why a fetch produced no test cases.
#[derive(Debug)]
pub enum FetchError {
    /// The identifier is empty or does not end in an alphabetic character.
    MalformedId,
    /// No candidate page held test cases.
    NotFound { contest_id: String, index: String, last_error: Option<String> },
}

/// What one request for a candidate page gave.
#[derive(Debug)]
pub enum Outcome {
    /// The request did not complete (name lookup, connection, timeout, body).
    Transport(String),
    /// The server answered with a status that is not a success.
    Rejected,
    /// The server answered with success; this is the page's text.
    Page(String),
}

/// What the caller does next.
#[derive(Debug)]
pub enum FetchStep {
    /// Request this address and report the outcome.
    Request(String),
    /// The fetch is over: these are the test cases.
    Found(Vec<TestCase>),
    /// The fetch is over and failed.
    Failed(FetchError),
}

pub open spec fn opt_text(o: Option<String>) -> Option<Seq<char>> {
    match o {
        Some(s) => Some(s@),
        None => None,
    }
}

pub enum ErrorModel {
    MalformedId,
    NotFound { contest_id: Seq<char>, index: Seq<char>, last_error: Option<Seq<char>> },
}

pub enum OutcomeModel {
    Transport(Seq<char>),
    Rejected,
    Page(Seq<char>),
}

pub enum StepModel {
    Request(Seq<char>),
    Found(Seq<(Seq<char>, Seq<char>)>),
    Failed(ErrorModel),
}

/// The state of a fetch: the problem, the candidate pages, the position of the
/// one whose outcome is awaited, and the last transport error seen.
pub struct FetchState {
    pub contest_id: Seq<char>,
    pub index: Seq<char>,
    pub urls: Seq<Seq<char>>,
    pub next: nat,
    pub last_error: Option<Seq<char>>,
}

impl View for FetchError {
    type V = ErrorModel;

    open spec fn view(&self) -> ErrorModel {
        match self {
            FetchError::MalformedId => ErrorModel::MalformedId,
            FetchError::NotFound { contest_id, index, last_error } => ErrorModel::NotFound {
                contest_id: contest_id@,
                index: index@,
                last_error: opt_text(*last_error),
            },
        }
    }
}

impl View for Outcome {
    type V = OutcomeModel;

    open spec fn view(&self) -> OutcomeModel {
        match self {
            Outcome::Transport(e) => OutcomeModel::Transport(e@),
            Outcome::Rejected => OutcomeModel::Rejected,
            Outcome::Page(p) => OutcomeModel::Page(p@),
        }
    }
}

impl View for FetchStep {
    type V = StepModel;

    open spec fn view(&self) -> StepModel {
        match self {
            FetchStep::Request(u) => StepModel::Request(u@),
            FetchStep::Found(v) => StepModel::Found(cases_view(v@)),
            FetchStep::Failed(e) => StepModel::Failed(e@),
        }
    }
}

/// The state in which a fetch for a well-formed identifier starts.
pub open spec fn initial_state(id: Seq<char>) -> FetchState {
    FetchState {
        contest_id: contest_part(id),
        index: index_part(id),
        urls: candidate_url_seq(contest_part(id), index_part(id)),
        next: 0,
        last_error: None,
    }
}

/// What the caller is asked to do in a state: request the awaited candidate,
/// or, when none is left, give up with the problem and the last error.
pub open spec fn pending(s: FetchState) -> StepModel {
    if s.next < s.urls.len() {
        StepModel::Request(s.urls[s.next as int])
    } else {
        StepModel::Failed(ErrorModel::NotFound {
            contest_id: s.contest_id,
            index: s.index,
            last_error: s.last_error,
        })
    }
}

/// The test cases an outcome carries: only a page can, and only one with both
/// input and output blocks.
pub open spec fn outcome_cases(o: OutcomeModel) -> Option<Seq<(Seq<char>, Seq<char>)>> {
    match o {
        OutcomeModel::Page(p) => page_cases(p),
        _ => None,
    }
}

/// The state after an outcome that carries no test cases: the next candidate
/// is awaited, and a transport error is remembered.
pub open spec fn advance(s: FetchState, o: OutcomeModel) -> FetchState {
    FetchState {
        next: if s.next < s.urls.len() { s.next + 1 } else { s.next },
        last_error: match o {
            OutcomeModel::Transport(e) => Some(e),
            _ => s.last_error,
        },
        ..s
    }
}

/// One step of a fetch: the new state and what the caller does next.
pub open spec fn step(s: FetchState, o: OutcomeModel) -> (FetchState, StepModel) {
    if s.next < s.urls.len() && outcome_cases(o) is Some {
        (s, StepModel::Found(outcome_cases(o)->0))
    } else {
        (advance(s, o), pending(advance(s, o)))
    }
}

/// A fetch in progress for one problem.
#[derive(Debug)]
pub struct Fetcher {
    problem: ProblemRef,
    urls: Vec<String>,
    next: usize,
    last_error: Option<String>,
}

impl View for Fetcher {
    type V = FetchState;

    closed spec fn view(&self) -> FetchState {
        FetchState {
            contest_id: self.problem.contest_id@,
            index: self.problem.index@,
            urls: self.urls@.map_values(|u: String| u@),
            next: self.next as nat,
            last_error: opt_text(self.last_error),
        }
    }
}

impl Fetcher {
    pub closed spec fn wf(&self) -> bool {
        &&& self.problem.wf()
        &&& self.next <= self.urls@.len()
        &&& self.urls@.len() == 2
    }

    /// Starts a fetch. A malformed identifier fails here, before any request.
    pub fn new(problem_id: &str) -> (r: Result<Fetcher, FetchError>)
        ensures
            r is Ok <==> valid_problem_id(problem_id@),
            r matches Ok(f) ==> f.wf() && f@ == initial_state(problem_id@),
            r matches Err(e) ==> e@ == ErrorModel::MalformedId,
    {
        match ProblemRef::parse(problem_id) {
            Some(problem) => {
                let urls = problem.candidate_urls();
                let f = Fetcher { problem, urls, next: 0, last_error: None };
                Ok(f)
            },
            None => Err(FetchError::MalformedId),
        }
    }

    /// The problem this fetch is for.
    pub fn problem(&self) -> (r: &ProblemRef)
        ensures
            r.contest_id@ == self@.contest_id,
            r.index@ == self@.index,
    {
        &self.problem
    }

    fn clone_error(e: &Option<String>) -> (r: Option<String>)
        ensures
            opt_text(r) == opt_text(*e),
    {
        match e {
            Some(s) => Some(s.clone()),
            None => None,
        }
    }

    /// What to do in the present state: request the awaited candidate, or fail
    /// when none is left.
    pub fn pending(&self) -> (r: FetchStep)
        requires
            self.wf(),
        ensures
            r@ == pending(self@),
    {
        if self.next < self.urls.len() {
            FetchStep::Request(self.urls[self.next].clone())
        } else {
            FetchStep::Failed(FetchError::NotFound {
                contest_id: self.problem.contest_id.clone(),
                index: self.problem.index.clone(),
                last_error: Self::clone_error(&self.last_error),
            })
        }
    }

    /// Takes the outcome of the awaited request and says what to do next.
    pub fn on_outcome(&mut self, outcome: Outcome) -> (r: FetchStep)
        requires
            old(self).wf(),
        ensures
            final(self).wf(),
            (final(self)@, r@) == step(old(self)@, outcome@),
    {
        if self.next < self.urls.len() {
            if let Outcome::Page(page) = &outcome {
                if let Some(cases) = cases_from_page(page.as_str()) {
                    return FetchStep::Found(cases);
                }
            }
            self.next = self.next + 1;
        }
        if let Outcome::Transport(e) = outcome {
            self.last_error = Some(e);
        }
        self.pending()
    }
}

/// When the first candidate gives no test cases and the second does, the fetch
/// requests the live contest page, then the archived page, and ends with the
/// second page's test cases.
pub proof fn lemma_falls_back_to_second(id: Seq<char>, first: OutcomeModel, second: OutcomeModel)
    requires
        valid_problem_id(id),
        outcome_cases(first) is None,
        outcome_cases(second) is Some,
    ensures
        pending(initial_state(id)) == StepModel::Request(candidate_url_seq(contest_part(id), index_part(id))[0]),
        step(initial_state(id), first).1 == StepModel::Request(candidate_url_seq(contest_part(id), index_part(id))[1]),
        step(step(initial_state(id), first).0, second).1 == StepModel::Found(outcome_cases(second)->0),
{
}

/// When the first candidate already gives test cases, the fetch ends there.
pub proof fn lemma_first_success_stops(id: Seq<char>, first: OutcomeModel)
    requires
        valid_problem_id(id),
        outcome_cases(first) is Some,
    ensures
        step(initial_state(id), first).1 == StepModel::Found(outcome_cases(first)->0),
{
}

/// When neither candidate gives test cases, the fetch fails with a not-found
/// error that names the contest part and the index of the identifier.
pub proof fn lemma_both_fail_not_found(id: Seq<char>, first: OutcomeModel, second: OutcomeModel)
    requires
        valid_problem_id(id),
        outcome_cases(first) is None,
        outcome_cases(second) is None,
    ensures
        step(step(initial_state(id), first).0, second).1 matches StepModel::Failed(
            ErrorModel::NotFound { contest_id, index, last_error },
        ) && contest_id == contest_part(id) && index == index_part(id),
{
}

} // verus!
