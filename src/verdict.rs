//! Judging a solution's run against a test case, and the verdict over all
//! cases.
use vstd::prelude::*;

use crate::text::{all_white_space, lemma_trimmed_ignores_outer_space, same_text, trim_text, trimmed};

verus! {

/// What running the solution on one test case gave.
#[derive(Debug)]
pub enum RunOutcome {
    /// The solution's entry point is not in its directory; nothing ran.
    MissingEntryPoint,
    /// The program could not be started, fed or read.
    Failed(String),
    /// The program ran past the time allowed and was stopped.
    TimedOut,
    /// The program exited; this is what it printed.
    Exited(String),
}

/// The verdict on one test case.
#[derive(Debug)]
pub enum Verdict {
    Passed,
    WrongAnswer,
    MissingEntryPoint,
    RunFailed(String),
    TimedOut,
}

/// Outputs match when they are equal once leading and trailing whitespace is
/// removed from both; whitespace inside them counts.
pub open spec fn outputs_agree(actual: Seq<char>, expected: Seq<char>) -> bool {
    trimmed(actual) == trimmed(expected)
}

/// Whether a program's output matches the expected output, trimmed.
pub fn outputs_match(actual: &str, expected: &str) -> (r: bool)
    ensures
        r == outputs_agree(actual@, expected@),
{
    let a = trim_text(actual);
    let e = trim_text(expected);
    same_text(&a, &e)
}

/// The verdict a run earns against the expected output.
pub open spec fn judged(outcome: RunOutcome, expected: Seq<char>) -> Verdict {
    match outcome {
        RunOutcome::MissingEntryPoint => Verdict::MissingEntryPoint,
        RunOutcome::Failed(e) => Verdict::RunFailed(e),
        RunOutcome::TimedOut => Verdict::TimedOut,
        RunOutcome::Exited(out) => if outputs_agree(out@, expected) {
            Verdict::Passed
        } else {
            Verdict::WrongAnswer
        },
    }
}

/// Judges one run.
pub fn judge(outcome: RunOutcome, expected: &str) -> (r: Verdict)
    ensures
        r == judged(outcome, expected@),
{
    match outcome {
        RunOutcome::MissingEntryPoint => Verdict::MissingEntryPoint,
        RunOutcome::Failed(e) => Verdict::RunFailed(e),
        RunOutcome::TimedOut => Verdict::TimedOut,
        RunOutcome::Exited(out) => if outputs_match(out.as_str(), expected) {
            Verdict::Passed
        } else {
            Verdict::WrongAnswer
        },
    }
}

impl Verdict {
    /// Whether this verdict is a pass.
    pub fn is_passed(&self) -> (r: bool)
        ensures
            r == (*self is Passed),
    {
        match self {
            Verdict::Passed => true,
            _ => false,
        }
    }
}

/// Every verdict is a pass.
pub open spec fn all_pass(vs: Seq<Verdict>) -> bool {
    forall|i: int| 0 <= i < vs.len() ==> #[trigger] vs[i] is Passed
}

/// The verdicts of a run over a list of test cases, in order.
#[derive(Debug)]
pub struct Report {
    verdicts: Vec<Verdict>,
}

impl View for Report {
    type V = Seq<Verdict>;

    closed spec fn view(&self) -> Seq<Verdict> {
        self.verdicts@
    }
}

impl Report {
    /// A report with no verdict yet.
    pub fn new() -> (r: Report)
        ensures
            r@ == Seq::<Verdict>::empty(),
    {
        Report { verdicts: Vec::new() }
    }

    /// Adds the verdict of the next case; earlier verdicts stay as they were.
    pub fn record(&mut self, v: Verdict)
        ensures
            final(self)@ == old(self)@.push(v),
    {
        self.verdicts.push(v);
    }

    /// The verdicts recorded so far, in order.
    pub fn verdicts(&self) -> (r: &Vec<Verdict>)
        ensures
            r@ == self@,
    {
        &self.verdicts
    }

    /// The number of verdicts that are passes.
    pub fn passed_count(&self) -> (r: usize)
        ensures
            r == self@.filter(|v: Verdict| v is Passed).len(),
    {
        let mut n: usize = 0;
        let mut i: usize = 0;
        while i < self.verdicts.len()
            invariant
                i <= self.verdicts@.len(),
                n == self.verdicts@.subrange(0, i as int).filter(|v: Verdict| v is Passed).len(),
                n <= i,
            decreases self.verdicts@.len() - i,
        {
            proof {
                reveal(Seq::filter);
                let s = self.verdicts@.subrange(0, i as int + 1);
                assert(s.drop_last() =~= self.verdicts@.subrange(0, i as int));
            }
            if self.verdicts[i].is_passed() {
                n = n + 1;
            }
            i = i + 1;
        }
        assert(self.verdicts@.subrange(0, i as int) =~= self.verdicts@);
        n
    }

    /// Whether every verdict so far is a pass.
    pub fn all_passed(&self) -> (r: bool)
        ensures
            r == all_pass(self@),
    {
        let mut i: usize = 0;
        while i < self.verdicts.len()
            invariant
                i <= self.verdicts@.len(),
                forall|j: int| 0 <= j < i ==> #[trigger] self.verdicts@[j] is Passed,
            decreases self.verdicts@.len() - i,
        {
            if !self.verdicts[i].is_passed() {
                return false;
            }
            i = i + 1;
        }
        true
    }
}

/// Whitespace printed before or after a program's output, or standing around
/// the expected output, never changes the verdict.
pub proof fn lemma_outer_whitespace_keeps_verdict(
    out: String,
    padded: String,
    expected: Seq<char>,
    padded_expected: Seq<char>,
    before: Seq<char>,
    after: Seq<char>,
    expected_before: Seq<char>,
    expected_after: Seq<char>,
)
    requires
        padded@ == before + out@ + after,
        padded_expected == expected_before + expected + expected_after,
        all_white_space(before),
        all_white_space(after),
        all_white_space(expected_before),
        all_white_space(expected_after),
    ensures
        judged(RunOutcome::Exited(padded), padded_expected) == judged(RunOutcome::Exited(out), expected),
{
    lemma_trimmed_ignores_outer_space(before, out@, after);
    lemma_trimmed_ignores_outer_space(expected_before, expected, expected_after);
}

/// One case that did not pass makes the overall verdict a failure.
pub proof fn lemma_one_failure_fails_all(vs: Seq<Verdict>, k: int)
    requires
        0 <= k < vs.len(),
        !(vs[k] is Passed),
    ensures
        !all_pass(vs),
{
}

/// Recording a verdict keeps the overall verdict a pass exactly when it was one
/// and the new verdict is a pass.
pub proof fn lemma_record_keeps_aggregate(vs: Seq<Verdict>, v: Verdict)
    ensures
        all_pass(vs.push(v)) == (all_pass(vs) && v is Passed),
{
    if all_pass(vs) && v is Passed {
        assert forall|i: int| 0 <= i < vs.push(v).len() implies #[trigger] vs.push(v)[i] is Passed by {
            if i < vs.len() {
                assert(vs.push(v)[i] == vs[i]);
            }
        }
    }
    if all_pass(vs.push(v)) {
        assert(vs.push(v)[vs.len() as int] == v);
        assert forall|i: int| 0 <= i < vs.len() implies #[trigger] vs[i] is Passed by {
            assert(vs.push(v)[i] == vs[i]);
        }
    }
}

} // verus!
