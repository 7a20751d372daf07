use repo_hub::search::{Search, SearchResults};
use repo_hub::source::Source;

#[test]
fn new_search_is_bound_to_backend() {
    let s = Search::new(Source::GitLab, String::from("tok"));
    assert_eq!(s.source(), Source::GitLab);
    assert_eq!(s.base_url(), "https://gitlab.com/api/v4");
    assert_eq!(s.token(), "tok");
    assert_eq!(s.query(), "");
}

#[test]
fn set_q_overwrites() {
    let mut s = Search::new(Source::GitHub, String::from("tok"));
    s.set_q("a");
    s.set_q("b");
    assert_eq!(s.query(), "b");
}

#[test]
fn set_q_chains() {
    let mut s = Search::new(Source::GitHub, String::from("tok"));
    s.set_q("rust").set_q("verus");
    assert_eq!(s.query(), "verus");
    assert_eq!(s.base_url(), "https://api.github.com");
}

#[test]
fn get_returns_empty_tagged_results() {
    let mut s = Search::new(Source::GitLab, String::from("tok"));
    s.set_q("x");
    let r = s.get();
    assert_eq!(r.source(), Source::GitLab);
    assert_eq!(r.description(), "");
    assert_eq!(r.url(), "");
    assert_eq!(s.query(), "x");
}

#[test]
fn search_results_new_keeps_search() {
    let mut s = Search::new(Source::GitHub, String::from("tok"));
    let r = SearchResults::new(&mut s);
    assert_eq!(r.source(), Source::GitHub);
    assert_eq!(r.description(), "");
    assert_eq!(r.url(), "");
    assert_eq!(s.token(), "tok");
}
