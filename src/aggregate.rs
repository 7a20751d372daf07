//! Aggregation of the repositories of a primary account and its organizations.
//!
//! The accounts are fetched one at a time, primary account first, then each
//! organization in configured order. An [`Aggregation`] decides which listing to
//! request next and folds in each response; whoever performs the requests hands
//! the outcome of each back. The first failed listing aborts the whole run.
use vstd::prelude::*;
use crate::repo::{repos_url, repos_url_of, FetchError, Repo};

verus! {

/// The abstract state of an aggregation run.
pub struct AggregationView {
    /// Base address of the backend's REST API.
    pub base_url: Seq<char>,
    /// The accounts to list, in order: the primary account, then the organizations.
    pub accounts: Seq<Seq<char>>,
    /// The listing of each account fetched so far, in fetch order.
    pub fetched: Seq<Seq<Repo>>,
    /// The failure that aborted the run, if any.
    pub failure: Option<FetchError>,
}

impl AggregationView {
    /// The state before any request: nothing fetched, nothing failed.
    pub open spec fn start(base_url: Seq<char>, primary: Seq<char>, orgs: Seq<Seq<char>>) -> Self {
        AggregationView {
            base_url,
            accounts: seq![primary] + orgs,
            fetched: Seq::empty(),
            failure: None,
        }
    }

    /// A listing is still to be requested: no failure, and an account left.
    pub open spec fn is_pending(self) -> bool {
        self.failure is None && self.fetched.len() < self.accounts.len()
    }

    /// The address of the listing to request next, if any.
    pub open spec fn next_url(self) -> Option<Seq<char>> {
        if self.is_pending() {
            Some(repos_url_of(self.base_url, self.accounts[self.fetched.len() as int]))
        } else {
            None
        }
    }

    /// The state after the pending listing arrived as `batch`.
    pub open spec fn step_ok(self, batch: Seq<Repo>) -> Self {
        AggregationView { fetched: self.fetched.push(batch), ..self }
    }

    /// The state after the pending listing failed with `e`.
    pub open spec fn step_err(self, e: FetchError) -> Self {
        AggregationView { failure: Some(e), ..self }
    }

    /// The result of the run once no listing is pending: the first failure, or
    /// every listing concatenated in fetch order. `None` while one is pending.
    pub open spec fn outcome(self) -> Option<Result<Seq<Repo>, FetchError>> {
        if self.is_pending() {
            None
        } else {
            match self.failure {
                Some(e) => Some(Err(e)),
                None => Some(Ok(self.fetched.flatten())),
            }
        }
    }

    /// Each listing in `batches` arrives in turn, with no failure.
    pub open spec fn run_ok(self, batches: Seq<Seq<Repo>>) -> Self
        decreases batches.len(),
    {
        if batches.len() == 0 {
            self
        } else {
            self.step_ok(batches[0]).run_ok(batches.drop_first())
        }
    }
}

/// Where the listing at `i` begins in the concatenation of `fetched`.
pub open spec fn batch_start(fetched: Seq<Seq<Repo>>, i: int) -> int {
    fetched.take(i).flatten().len() as int
}

/// A run over the repositories of a primary account and its organizations.
pub struct Aggregation {
    base_url: String,
    accounts: Vec<String>,
    next: usize,
    repos: Vec<Repo>,
    failure: Option<FetchError>,
    fetched: Ghost<Seq<Seq<Repo>>>,
}

impl View for Aggregation {
    type V = AggregationView;

    closed spec fn view(&self) -> AggregationView {
        AggregationView {
            base_url: self.base_url@,
            accounts: self.accounts@.map_values(|s: String| s@),
            fetched: self.fetched@,
            failure: self.failure,
        }
    }
}

proof fn lemma_flatten_push(fetched: Seq<Seq<Repo>>, batch: Seq<Repo>)
    ensures
        fetched.push(batch).flatten() == fetched.flatten() + batch,
{
    vstd::seq_lib::lemma_flatten_concat(fetched, seq![batch]);
    seq![batch].lemma_flatten_one_element();
    assert(fetched.push(batch) =~= fetched + seq![batch]);
}

proof fn lemma_run_ok_appends(s: AggregationView, batches: Seq<Seq<Repo>>)
    ensures
        s.run_ok(batches) == (AggregationView { fetched: s.fetched + batches, ..s }),
    decreases batches.len(),
{
    if batches.len() > 0 {
        lemma_run_ok_appends(s.step_ok(batches[0]), batches.drop_first());
        assert(s.fetched.push(batches[0]) + batches.drop_first() =~= s.fetched + batches);
    } else {
        assert(s.fetched + batches =~= s.fetched);
    }
}

/// A run in which the listing of every account arrives ends with all of them
/// concatenated in fetch order: the primary account's repositories first, then
/// those of each organization in configured order.
pub proof fn lemma_complete_run(
    base_url: Seq<char>,
    primary: Seq<char>,
    orgs: Seq<Seq<char>>,
    batches: Seq<Seq<Repo>>,
)
    requires
        batches.len() == orgs.len() + 1,
    ensures
        AggregationView::start(base_url, primary, orgs).run_ok(batches).next_url() is None,
        AggregationView::start(base_url, primary, orgs).run_ok(batches).outcome() == Some(
            Ok::<Seq<Repo>, FetchError>(batches.flatten()),
        ),
{
    let s = AggregationView::start(base_url, primary, orgs);
    lemma_run_ok_appends(s, batches);
    assert(s.fetched + batches =~= batches);
}

/// In the concatenation of the listings, each listing stands whole and in its
/// place: the listing at `i` fills the positions from `batch_start(fetched, i)`
/// on, after every earlier listing and with no other interleaved.
pub proof fn lemma_batch_in_place(fetched: Seq<Seq<Repo>>, i: int)
    requires
        0 <= i < fetched.len(),
    ensures
        batch_start(fetched, 0) == 0,
        batch_start(fetched, i + 1) == batch_start(fetched, i) + fetched[i].len(),
        batch_start(fetched, i) + fetched[i].len() <= fetched.flatten().len(),
        fetched.flatten().subrange(
            batch_start(fetched, i),
            batch_start(fetched, i) + fetched[i].len(),
        ) == fetched[i],
{
    assert(fetched.take(0) =~= Seq::<Seq<Repo>>::empty());
    let head = fetched.take(i);
    let one = seq![fetched[i]];
    let tail = fetched.skip(i + 1);
    assert(fetched =~= head + (one + tail));
    assert(fetched.take(i + 1) =~= head + one);
    vstd::seq_lib::lemma_flatten_concat(head, one + tail);
    vstd::seq_lib::lemma_flatten_concat(one, tail);
    vstd::seq_lib::lemma_flatten_concat(head, one);
    one.lemma_flatten_one_element();
    let f = fetched.flatten();
    assert(f =~= head.flatten() + (fetched[i] + tail.flatten()));
    assert(f.subrange(head.flatten().len() as int, (head.flatten().len() + fetched[i].len()) as int)
        =~= fetched[i]);
}

/// A failed listing aborts the run: no further listing is requested, and the
/// run ends with that failure, returning nothing collected before it.
pub proof fn lemma_failure_aborts(s: AggregationView, e: FetchError)
    requires
        s.is_pending(),
    ensures
        s.step_err(e).next_url() is None,
        s.step_err(e).outcome() == Some(Err::<Seq<Repo>, FetchError>(e)),
{
}

/// When the primary account's listing fails, the run ends with that failure
/// before any organization's listing is requested.
pub proof fn lemma_primary_failure_aborts(
    base_url: Seq<char>,
    primary: Seq<char>,
    orgs: Seq<Seq<char>>,
    e: FetchError,
)
    ensures
        AggregationView::start(base_url, primary, orgs).next_url() == Some(
            repos_url_of(base_url, primary),
        ),
        AggregationView::start(base_url, primary, orgs).step_err(e).fetched.len() == 0,
        AggregationView::start(base_url, primary, orgs).step_err(e).next_url() is None,
        AggregationView::start(base_url, primary, orgs).step_err(e).outcome() == Some(
            Err::<Seq<Repo>, FetchError>(e),
        ),
{
}

impl Aggregation {
    /// Internal consistency: the collected repositories are the fetched listings
    /// concatenated, and the cursor counts the listings fetched.
    pub closed spec fn wf(&self) -> bool {
        &&& self.repos@ == self.fetched@.flatten()
        &&& self.next as int == self.fetched@.len()
        &&& self.fetched@.len() <= self.accounts@.len()
    }

    /// Starts a run over `primary` and then `orgs`, against the backend at `base_url`.
    pub fn new(base_url: String, primary: String, orgs: Vec<String>) -> (r: Self)
        ensures
            r.wf(),
            r@ == AggregationView::start(base_url@, primary@, orgs@.map_values(|s: String| s@)),
    {
        let ghost p = primary;
        let ghost o = orgs@;
        let mut accounts: Vec<String> = Vec::new();
        accounts.push(primary);
        let mut orgs = orgs;
        accounts.append(&mut orgs);
        assert(accounts@ =~= seq![p] + o);
        assert(accounts@.map_values(|s: String| s@) =~= seq![p@] + o.map_values(|s: String| s@));
        Aggregation {
            base_url,
            accounts,
            next: 0,
            repos: Vec::new(),
            failure: None,
            fetched: Ghost(Seq::empty()),
        }
    }

    /// The address of the listing to request next; `None` once every account has
    /// been listed or a listing has failed.
    pub fn next_request(&self) -> (r: Option<String>)
        requires
            self.wf(),
        ensures
            r matches Some(u) ==> self@.next_url() == Some(u@),
            r is None ==> self@.next_url() is None,
    {
        if self.failure.is_none() && self.next < self.accounts.len() {
            Some(repos_url(self.base_url.as_str(), self.accounts[self.next].as_str()))
        } else {
            None
        }
    }

    /// Whether a listing is still to be requested.
    pub fn is_pending(&self) -> (r: bool)
        requires
            self.wf(),
        ensures
            r == self@.is_pending(),
    {
        self.failure.is_none() && self.next < self.accounts.len()
    }

    /// Folds in the outcome of the pending listing: its repositories are appended
    /// after those collected so far, or its failure aborts the run.
    pub fn on_response(&mut self, response: Result<Vec<Repo>, FetchError>)
        requires
            old(self).wf(),
            old(self)@.is_pending(),
        ensures
            final(self).wf(),
            response matches Ok(b) ==> final(self)@ == old(self)@.step_ok(b@),
            response matches Err(e) ==> final(self)@ == old(self)@.step_err(e),
    {
        match response {
            Ok(batch) => {
                let ghost b = batch@;
                proof {
                    lemma_flatten_push(self.fetched@, b);
                }
                assert(self@.accounts.len() == self.accounts@.len());
                assert(self.next < self.accounts.len());
                let mut batch = batch;
                self.repos.append(&mut batch);
                self.next = self.next + 1;
                self.fetched = Ghost(self.fetched@.push(b));
            },
            Err(e) => {
                self.failure = Some(e);
            },
        }
    }

    /// Ends a run in which no listing is pending: the first failure, or every
    /// listing concatenated in fetch order.
    pub fn finish(self) -> (r: Result<Vec<Repo>, FetchError>)
        requires
            self.wf(),
            !self@.is_pending(),
        ensures
            self@.outcome() matches Some(o) && match (r, o) {
                (Ok(v), Ok(s)) => v@ == s,
                (Err(e), Err(f)) => e == f,
                _ => false,
            },
    {
        match self.failure {
            Some(e) => Err(e),
            None => Ok(self.repos),
        }
    }
}

} // verus!
