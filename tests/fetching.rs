use cfgo::fetch::{FetchError, FetchStep, Fetcher, Outcome};
use cfgo::page::{cases_from_page, join_lines, pair_blocks, select_texts};
use cfgo::problem::ProblemRef;

fn page(inputs: &[&str], outputs: &[&str]) -> String {
    let mut s = String::from("<html><body><div class=\"problem-statement\"><div class=\"sample-test\">");
    for i in inputs {
        s.push_str(&format!("<div class=\"input\"><div class=\"title\">Input</div><pre>{}</pre></div>", i));
    }
    for o in outputs {
        s.push_str(&format!("<div class=\"output\"><div class=\"title\">Output</div><pre>{}</pre></div>", o));
    }
    s.push_str("</div></div></body></html>");
    s
}

fn expect_request(step: FetchStep) -> String {
    match step {
        FetchStep::Request(u) => u,
        _ => panic!("expected a request"),
    }
}

#[test]
fn malformed_ids_fail_before_any_request() {
    for id in ["1234", "", "12 3", "4A1", "4_"] {
        assert!(matches!(Fetcher::new(id), Err(FetchError::MalformedId)), "{:?}", id);
        assert!(ProblemRef::parse(id).is_none());
    }
}

#[test]
fn identifier_splits_into_contest_and_index() {
    let p = ProblemRef::parse("1234A").unwrap();
    assert_eq!(p.contest_id, "1234");
    assert_eq!(p.index, "A");
    let q = ProblemRef::parse("B").unwrap();
    assert_eq!(q.contest_id, "");
    assert_eq!(q.index, "B");
}

#[test]
fn candidate_urls_in_order() {
    let p = ProblemRef::parse("4A").unwrap();
    assert_eq!(
        p.candidate_urls(),
        vec![
            "https://codeforces.com/contest/4/problem/A".to_string(),
            "https://codeforces.com/problemset/problem/4/A".to_string(),
        ]
    );
}

#[test]
fn page_pairs_blocks_by_position() {
    let body = page(&["1 2", "3 4", "5 6"], &["3", "7"]);
    let cases = cases_from_page(&body).unwrap();
    assert_eq!(cases.len(), 2);
    assert_eq!(cases[0].input, "1 2");
    assert_eq!(cases[0].output, "3");
    assert_eq!(cases[1].input, "3 4");
    assert_eq!(cases[1].output, "7");
}

#[test]
fn page_blocks_are_trimmed() {
    let body = page(&["\n  2 3  \n"], &["  5\n"]);
    let cases = cases_from_page(&body).unwrap();
    assert_eq!(cases.len(), 1);
    assert_eq!(cases[0].input, "2 3");
    assert_eq!(cases[0].output, "5");
}

#[test]
fn page_text_nodes_join_with_newlines() {
    let body = page(&["<div>1</div><div>2</div>"], &["ok"]);
    let cases = cases_from_page(&body).unwrap();
    assert_eq!(cases[0].input, "1\n2");
}

#[test]
fn page_without_blocks_gives_nothing() {
    assert!(cases_from_page("<html><body>nothing here</body></html>").is_none());
    assert!(cases_from_page(&page(&["1"], &[])).is_none());
    assert!(cases_from_page(&page(&[], &["1"])).is_none());
}

#[test]
fn pairing_empty_lists() {
    let none: Vec<String> = Vec::new();
    assert!(pair_blocks(&none, &vec!["x".to_string()]).is_empty());
    let cases = pair_blocks(&vec![" a ".to_string()], &vec!["b\n".to_string(), "c".to_string()]);
    assert_eq!(cases.len(), 1);
    assert_eq!(cases[0].input, "a");
    assert_eq!(cases[0].output, "b");
}

#[test]
fn first_page_with_cases_ends_the_fetch() {
    let mut f = Fetcher::new("4A").unwrap();
    let url = expect_request(f.pending());
    assert_eq!(url, "https://codeforces.com/contest/4/problem/A");
    match f.on_outcome(Outcome::Page(page(&["2 3"], &["5"]))) {
        FetchStep::Found(cases) => {
            assert_eq!(cases.len(), 1);
            assert_eq!(cases[0].input, "2 3");
            assert_eq!(cases[0].output, "5");
        }
        _ => panic!("expected test cases"),
    }
}

#[test]
fn empty_first_page_falls_back_to_archive() {
    let mut f = Fetcher::new("4A").unwrap();
    expect_request(f.pending());
    let second = expect_request(f.on_outcome(Outcome::Page(page(&[], &[]))));
    assert_eq!(second, "https://codeforces.com/problemset/problem/4/A");
    match f.on_outcome(Outcome::Page(page(&["1 1"], &["2"]))) {
        FetchStep::Found(cases) => {
            assert_eq!(cases.len(), 1);
            assert_eq!(cases[0].input, "1 1");
            assert_eq!(cases[0].output, "2");
        }
        _ => panic!("expected test cases"),
    }
}

#[test]
fn transport_error_falls_back_to_archive() {
    let mut f = Fetcher::new("1234B").unwrap();
    expect_request(f.pending());
    let second = expect_request(f.on_outcome(Outcome::Transport("connection reset".to_string())));
    assert_eq!(second, "https://codeforces.com/problemset/problem/1234/B");
}

#[test]
fn both_candidates_empty_is_not_found() {
    let mut f = Fetcher::new("4A").unwrap();
    expect_request(f.pending());
    expect_request(f.on_outcome(Outcome::Transport("dns failure".to_string())));
    match f.on_outcome(Outcome::Rejected) {
        FetchStep::Failed(FetchError::NotFound { contest_id, index, last_error }) => {
            assert_eq!(contest_id, "4");
            assert_eq!(index, "A");
            assert_eq!(last_error, Some("dns failure".to_string()));
        }
        _ => panic!("expected not found"),
    }
}

#[test]
fn not_found_without_transport_error() {
    let mut f = Fetcher::new("99Z").unwrap();
    expect_request(f.pending());
    expect_request(f.on_outcome(Outcome::Rejected));
    match f.on_outcome(Outcome::Page(page(&["1"], &[]))) {
        FetchStep::Failed(FetchError::NotFound { contest_id, index, last_error }) => {
            assert_eq!(contest_id, "99");
            assert_eq!(index, "Z");
            assert_eq!(last_error, None);
        }
        _ => panic!("expected not found"),
    }
    assert_eq!(f.problem().contest_id, "99");
}

#[test]
fn join_lines_puts_newlines_between_parts() {
    assert_eq!(join_lines(&vec![]), "");
    assert_eq!(join_lines(&vec!["a".to_string()]), "a");
    assert_eq!(join_lines(&vec!["a".to_string(), "".to_string(), "b c".to_string()]), "a\n\nb c");
}

#[test]
fn select_texts_joins_each_element() {
    let body = "<div class=\"input\"><pre>1<br>2</pre></div><div class=\"input\"><pre>3</pre></div>";
    let texts = select_texts(body, "div.input pre").unwrap();
    assert_eq!(texts, vec!["1\n2".to_string(), "3".to_string()]);
    assert!(select_texts(body, "div[").is_none());
}
