//! Turning a problem page into its ordered list of sample test cases.
use vstd::prelude::*;

use crate::text::{trim_text, trimmed};

verus! {

/// CSS selector of the sample input blocks in a problem statement.
pub const INPUT_SELECTOR: &'static str = "div.input pre";

/// CSS selector of the sample output blocks in a problem statement.
pub const OUTPUT_SELECTOR: &'static str = "div.output pre";

/// The text nodes of each element of an HTML document that matches a CSS
/// selector, elements in the order scraper's `Html::select` yields them, text
/// nodes in the order `ElementRef::text` yields them; `None` when the selector
/// does not parse.
pub uninterp spec fn selected_text_nodes(page: Seq<char>, selector: Seq<char>) -> Option<Seq<Seq<Seq<char>>>>;

pub open spec fn nodes_view(v: Option<Vec<Vec<String>>>) -> Option<Seq<Seq<Seq<char>>>> {
    match v {
        Some(v) => Some(v@.map_values(|e: Vec<String>| e@.map_values(|s: String| s@))),
        None => None,
    }
}

pub open spec fn texts_view(v: Option<Vec<String>>) -> Option<Seq<Seq<char>>> {
    match v {
        Some(v) => Some(v@.map_values(|s: String| s@)),
        None => None,
    }
}

/// Relies on scraper's `Selector::parse`, `Html::parse_document`,
/// `Html::select` and `ElementRef::text`: the text nodes of the matching
/// elements, a function of the page and the selector alone.
#[verifier::external_body]
fn select_text_nodes(page: &str, selector: &str) -> (r: Option<Vec<Vec<String>>>)
    ensures
        nodes_view(r) == selected_text_nodes(page@, selector@),
{
    let sel = match scraper::Selector::parse(selector) {
        Ok(sel) => sel,
        Err(_) => return None,
    };
    let document = scraper::Html::parse_document(page);
    Some(document.select(&sel).map(|e| e.text().map(|t| t.to_string()).collect()).collect())
}

/// Parts written one after another, a newline between each two.
pub open spec fn joined_lines(parts: Seq<Seq<char>>) -> Seq<char>
    decreases parts.len(),
{
    if parts.len() == 0 {
        Seq::empty()
    } else if parts.len() == 1 {
        parts[0]
    } else {
        joined_lines(parts.drop_last()) + "\n"@ + parts.last()
    }
}

/// The text of each element that matches a selector: its text nodes joined by
/// newlines; `None` when the selector does not parse.
pub open spec fn selected_texts(page: Seq<char>, selector: Seq<char>) -> Option<Seq<Seq<char>>> {
    match selected_text_nodes(page, selector) {
        Some(elements) => Some(elements.map_values(|nodes: Seq<Seq<char>>| joined_lines(nodes))),
        None => None,
    }
}

/// Joins parts with a newline between each two.
pub fn join_lines(parts: &Vec<String>) -> (r: String)
    ensures
        r@ == joined_lines(parts@.map_values(|s: String| s@)),
{
    let ghost views = parts@.map_values(|s: String| s@);
    let mut r = String::new();
    let mut i: usize = 0;
    while i < parts.len()
        invariant
            i <= parts@.len(),
            views == parts@.map_values(|s: String| s@),
            r@ == joined_lines(views.subrange(0, i as int)),
        decreases parts@.len() - i,
    {
        proof {
            let next = views.subrange(0, i as int + 1);
            assert(next.drop_last() =~= views.subrange(0, i as int));
            assert(next.last() == parts@[i as int]@);
        }
        if i > 0 {
            r.append("\n");
        }
        r.append(parts[i].as_str());
        proof {
            if i == 0 {
                assert(r@ =~= joined_lines(views.subrange(0, 1)));
            }
        }
        i = i + 1;
    }
    assert(views.subrange(0, i as int) =~= views);
    r
}

/// The text of each element that matches a selector, its text nodes joined by
/// newlines; `None` when the selector does not parse.
pub fn select_texts(page: &str, selector: &str) -> (r: Option<Vec<String>>)
    ensures
        texts_view(r) == selected_texts(page@, selector@),
{
    match select_text_nodes(page, selector) {
        None => None,
        Some(elements) => {
            let ghost ev = elements@.map_values(|e: Vec<String>| e@.map_values(|s: String| s@));
            let mut texts: Vec<String> = Vec::new();
            let mut i: usize = 0;
            while i < elements.len()
                invariant
                    i <= elements@.len(),
                    ev == elements@.map_values(|e: Vec<String>| e@.map_values(|s: String| s@)),
                    texts@.len() == i,
                    forall|k: int| 0 <= k < i ==> #[trigger] texts@[k]@ == joined_lines(ev[k]),
                decreases elements@.len() - i,
            {
                let t = join_lines(&elements[i]);
                texts.push(t);
                i = i + 1;
            }
            assert(texts@.map_values(|s: String| s@) =~= ev.map_values(|nodes: Seq<Seq<char>>| joined_lines(nodes)));
            Some(texts)
        },
    }
}

/// One sample test: the text fed to the program and the text it should print.
#[derive(Debug)]
pub struct TestCase {
    pub input: String,
    pub output: String,
}

impl View for TestCase {
    type V = (Seq<char>, Seq<char>);

    open spec fn view(&self) -> (Seq<char>, Seq<char>) {
        (self.input@, self.output@)
    }
}

pub open spec fn cases_view(v: Seq<TestCase>) -> Seq<(Seq<char>, Seq<char>)> {
    v.map_values(|c: TestCase| c@)
}

/// The k-th input paired with the k-th output, both trimmed, as far as the
/// shorter list reaches.
pub open spec fn paired(inputs: Seq<Seq<char>>, outputs: Seq<Seq<char>>) -> Seq<(Seq<char>, Seq<char>)> {
    Seq::new(
        if inputs.len() <= outputs.len() { inputs.len() } else { outputs.len() },
        |k: int| (trimmed(inputs[k]), trimmed(outputs[k])),
    )
}

/// The test cases a page yields: `None` unless it has at least one input
/// block and at least one output block.
pub open spec fn page_cases(page: Seq<char>) -> Option<Seq<(Seq<char>, Seq<char>)>> {
    match (selected_texts(page, INPUT_SELECTOR@), selected_texts(page, OUTPUT_SELECTOR@)) {
        (Some(ins), Some(outs)) => if ins.len() > 0 && outs.len() > 0 {
            Some(paired(ins, outs))
        } else {
            None
        },
        _ => None,
    }
}

/// Pairs inputs with outputs by position, trimming both; the longer list is
/// cut to the length of the shorter.
pub fn pair_blocks(inputs: &Vec<String>, outputs: &Vec<String>) -> (r: Vec<TestCase>)
    ensures
        r@.len() == if inputs@.len() <= outputs@.len() { inputs@.len() } else { outputs@.len() },
        forall|k: int| 0 <= k < r@.len() ==> (#[trigger] r@[k]).input@ == trimmed(inputs@[k]@)
            && r@[k].output@ == trimmed(outputs@[k]@),
        cases_view(r@) == paired(inputs@.map_values(|s: String| s@), outputs@.map_values(|s: String| s@)),
{
    let n: usize = if inputs.len() <= outputs.len() { inputs.len() } else { outputs.len() };
    let mut r: Vec<TestCase> = Vec::new();
    let mut k: usize = 0;
    while k < n
        invariant
            k <= n,
            n <= inputs@.len(),
            n <= outputs@.len(),
            r@.len() == k,
            forall|j: int| 0 <= j < k ==> (#[trigger] r@[j]).input@ == trimmed(inputs@[j]@)
                && r@[j].output@ == trimmed(outputs@[j]@),
        decreases n - k,
    {
        let case = TestCase { input: trim_text(inputs[k].as_str()), output: trim_text(outputs[k].as_str()) };
        r.push(case);
        k += 1;
    }
    assert(cases_view(r@) =~= paired(inputs@.map_values(|s: String| s@), outputs@.map_values(|s: String| s@)));
    r
}

/// The test cases of a page: its input and output blocks paired by position,
/// or `None` when either kind of block is missing.
pub fn cases_from_page(page: &str) -> (r: Option<Vec<TestCase>>)
    ensures
        match r {
            Some(v) => page_cases(page@) == Some(cases_view(v@)),
            None => page_cases(page@) is None,
        },
{
    let inputs = select_texts(page, INPUT_SELECTOR);
    let outputs = select_texts(page, OUTPUT_SELECTOR);
    match (inputs, outputs) {
        (Some(ins), Some(outs)) => {
            if ins.len() > 0 && outs.len() > 0 {
                let cases = pair_blocks(&ins, &outs);
                Some(cases)
            } else {
                None
            }
        },
        _ => None,
    }
}

/// A page with N input blocks and M output blocks, both at least one, yields
/// min(N, M) test cases, the k-th pairing the k-th input with the k-th output.
pub proof fn lemma_page_pairs_by_position(page: Seq<char>, ins: Seq<Seq<char>>, outs: Seq<Seq<char>>)
    requires
        selected_texts(page, INPUT_SELECTOR@) == Some(ins),
        selected_texts(page, OUTPUT_SELECTOR@) == Some(outs),
        ins.len() > 0,
        outs.len() > 0,
    ensures
        page_cases(page) matches Some(cs) && cs.len() == (if ins.len() <= outs.len() { ins.len() } else { outs.len() })
            && forall|k: int| 0 <= k < cs.len() ==> #[trigger] cs[k] == (trimmed(ins[k]), trimmed(outs[k])),
{
}

} // verus!
