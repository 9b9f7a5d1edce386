//! Problem identifiers and the pages that may hold their statement.
use vstd::prelude::*;
use vstd::string::StrSliceExecFns;
use vstd::string::StringExecFns;

use crate::text::{alphabetic, is_letter};

verus! {

/// A problem identifier split into its contest part and its one-letter index.
#[derive(Debug)]
pub struct ProblemRef {
    pub contest_id: String,
    pub index: String,
}

/// An identifier is well formed when its last character is alphabetic.
pub open spec fn valid_problem_id(id: Seq<char>) -> bool {
    id.len() > 0 && alphabetic(id.last())
}

/// The contest part: every character but the last.
pub open spec fn contest_part(id: Seq<char>) -> Seq<char> {
    id.drop_last()
}

/// The index part: the last character alone.
pub open spec fn index_part(id: Seq<char>) -> Seq<char> {
    seq![id.last()]
}

pub open spec fn live_contest_url(contest: Seq<char>, index: Seq<char>) -> Seq<char> {
    "https://codeforces.com/contest/"@ + contest + "/problem/"@ + index
}

pub open spec fn archive_url(contest: Seq<char>, index: Seq<char>) -> Seq<char> {
    "https://codeforces.com/problemset/problem/"@ + contest + "/"@ + index
}

/// The pages tried for a problem, in order: the live contest page first, then
/// the archived problemset page.
pub open spec fn candidate_url_seq(contest: Seq<char>, index: Seq<char>) -> Seq<Seq<char>> {
    seq![live_contest_url(contest, index), archive_url(contest, index)]
}

impl ProblemRef {
    pub open spec fn wf(&self) -> bool {
        self.index@.len() == 1 && alphabetic(self.index@[0])
    }

    /// The identifier written back as one text: contest part, then index.
    pub open spec fn id(&self) -> Seq<char> {
        self.contest_id@ + self.index@
    }

    /// Splits an identifier into contest part and index. Fails, and nothing
    /// else happens, when the identifier is empty or its last character is not
    /// alphabetic.
    pub fn parse(problem_id: &str) -> (r: Option<ProblemRef>)
        ensures
            r is Some <==> valid_problem_id(problem_id@),
            r matches Some(p) ==> p.wf() && p.contest_id@ == contest_part(problem_id@)
                && p.index@ == index_part(problem_id@) && p.id() == problem_id@,
    {
        let n = problem_id.unicode_len();
        if n == 0 {
            return None;
        }
        let last = problem_id.get_char(n - 1);
        if !is_letter(last) {
            return None;
        }
        let contest = problem_id.substring_char(0, n - 1);
        let index = problem_id.substring_char(n - 1, n);
        let p = ProblemRef { contest_id: String::from_str(contest), index: String::from_str(index) };
        proof {
            assert(index_part(problem_id@) =~= problem_id@.subrange(n - 1, n as int));
            assert(contest_part(problem_id@) =~= problem_id@.subrange(0, n - 1));
            assert(contest_part(problem_id@) + index_part(problem_id@) =~= problem_id@);
        }
        Some(p)
    }

    /// The candidate page addresses, in the order they are tried.
    pub fn candidate_urls(&self) -> (r: Vec<String>)
        ensures
            r@.len() == 2,
            r@.map_values(|u: String| u@) == candidate_url_seq(self.contest_id@, self.index@),
    {
        let mut live = String::from_str("https://codeforces.com/contest/");
        live.append(self.contest_id.as_str());
        live.append("/problem/");
        live.append(self.index.as_str());
        let mut archive = String::from_str("https://codeforces.com/problemset/problem/");
        archive.append(self.contest_id.as_str());
        archive.append("/");
        archive.append(self.index.as_str());
        let r = vec![live, archive];
        proof {
            assert(r@.map_values(|u: String| u@) =~= candidate_url_seq(self.contest_id@, self.index@));
        }
        r
    }
}

} // verus!
