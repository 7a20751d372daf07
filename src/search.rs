//! A query builder bound to one backend.
//!
//! Issuing a query is not implemented yet: [`Search::get`] makes no request and
//! returns a result that carries only the backend it came from.
use vstd::prelude::*;
use crate::source::{base_url, base_url_of, Source};

verus! {

/// The abstract state of a [`Search`].
pub struct SearchView {
    pub source: Source,
    pub base_url: Seq<char>,
    pub q: Seq<char>,
    pub token: Seq<char>,
}

impl SearchView {
    /// The same search with its query replaced by `q`.
    pub open spec fn with_q(self, q: Seq<char>) -> Self {
        SearchView { q, ..self }
    }
}

/// Setting the query twice leaves the second query alone, never the two joined:
/// each call replaces the query wholesale.
pub proof fn lemma_set_q_overwrites(s: SearchView, a: Seq<char>, b: Seq<char>)
    ensures
        s.with_q(a).with_q(b) == s.with_q(b),
        s.with_q(a).with_q(b).q == b,
{
}

/// The abstract state of a [`SearchResults`].
pub struct SearchResultsView {
    pub source: Source,
    pub description: Seq<char>,
    pub url: Seq<char>,
}

/// A search against one backend, with its base address and access token.
#[derive(Clone)]
pub struct Search {
    source: Source,
    base_url: String,
    q: String,
    token: String,
}

/// What a search produced.
pub struct SearchResults {
    source: Source,
    description: String,
    url: String,
}

impl View for Search {
    type V = SearchView;

    closed spec fn view(&self) -> SearchView {
        SearchView { source: self.source, base_url: self.base_url@, q: self.q@, token: self.token@ }
    }
}

impl View for SearchResults {
    type V = SearchResultsView;

    closed spec fn view(&self) -> SearchResultsView {
        SearchResultsView { source: self.source, description: self.description@, url: self.url@ }
    }
}

impl SearchResults {
    /// The empty result of `search`: tagged with its backend, with no
    /// description and no address.
    pub fn new(search: &mut Search) -> (r: Self)
        ensures
            *final(search) == *old(search),
            r@ == (SearchResultsView {
                source: old(search)@.source,
                description: Seq::empty(),
                url: Seq::empty(),
            }),
    {
        let source = search.source;
        SearchResults { source, description: String::new(), url: String::new() }
    }

    /// The backend the results came from.
    pub fn source(&self) -> (r: Source)
        ensures
            r == self@.source,
    {
        self.source
    }

    /// The description of the results.
    pub fn description(&self) -> (r: &str)
        ensures
            r@ == self@.description,
    {
        self.description.as_str()
    }

    /// The address of the results.
    pub fn url(&self) -> (r: &str)
        ensures
            r@ == self@.url,
    {
        self.url.as_str()
    }
}

impl Search {
    /// A search against `source`, authenticated with `token`, with an empty query.
    #[must_use]
    pub fn new(source: Source, token: String) -> (r: Self)
        ensures
            r@ == (SearchView { source, base_url: base_url_of(source), q: Seq::empty(), token: token@ }),
    {
        Search { source, q: String::new(), base_url: base_url(source), token }
    }

    /// Replaces the query with `q`; earlier queries leave nothing behind.
    /// Returns the search again, for chaining.
    pub fn set_q(&mut self, q: &str) -> (r: &mut Self)
        ensures
            (*r)@ == old(self)@.with_q(q@),
            *final(self) == *final(r),
    {
        self.q = String::from_str(q);
        self
    }

    /// Ends the search: no request is made, and the result carries only the backend.
    pub fn get(&mut self) -> (r: SearchResults)
        ensures
            *final(self) == *old(self),
            r@ == (SearchResultsView {
                source: old(self)@.source,
                description: Seq::empty(),
                url: Seq::empty(),
            }),
    {
        SearchResults::new(self)
    }

    /// The backend searched.
    pub fn source(&self) -> (r: Source)
        ensures
            r == self@.source,
    {
        self.source
    }

    /// The base address of the backend's REST API.
    pub fn base_url(&self) -> (r: &str)
        ensures
            r@ == self@.base_url,
    {
        self.base_url.as_str()
    }

    /// The current query.
    pub fn query(&self) -> (r: &str)
        ensures
            r@ == self@.q,
    {
        self.q.as_str()
    }

    /// The access token the search is authenticated with.
    pub fn token(&self) -> (r: &str)
        ensures
            r@ == self@.token,
    {
        self.token.as_str()
    }
}

} // verus!
