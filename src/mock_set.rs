//! The ordered mock registry and its selection rule.
use vstd::prelude::*;

use crate::mock::{eligible, fired, mock_wf, same_mock, same_response, Mock, Then};
use crate::request::Request;

verus! {

/// Status of the response given when no mock matches a request.
pub const FALLBACK_STATUS: u16 = 404;

/// Mocks in insertion order; a mock's index is its insertion sequence number.
#[derive(Debug)]
pub struct MockSet {
    pub mocks: Vec<Mock>,
}

/// Mock `i` ranks above mock `j`: higher priority, or equal priority and inserted earlier.
pub open spec fn outranks(s: Seq<Mock>, i: int, j: int) -> bool {
    s[i].priority > s[j].priority || (s[i].priority == s[j].priority && i < j)
}

/// Mock `i` is the one selection picks for `r`: eligible, and above every other eligible mock.
pub open spec fn is_choice(s: Seq<Mock>, r: Request, i: int) -> bool {
    &&& 0 <= i < s.len()
    &&& eligible(s[i], r)
    &&& forall|j: int| 0 <= j < s.len() && j != i && eligible(#[trigger] s[j], r) ==> outranks(s, i, j)
}

/// The index of the mock selected for `r`, or `None` when no mock is eligible.
pub open spec fn selection(s: Seq<Mock>, r: Request) -> Option<int> {
    if exists|i: int| is_choice(s, r, i) {
        Some(choose|i: int| is_choice(s, r, i))
    } else {
        None
    }
}

/// The mocks after the selected one, if any, fired once.
pub open spec fn consumed(s: Seq<Mock>, sel: Option<int>) -> Seq<Mock> {
    match sel {
        Some(i) => s.update(i, fired(s[i])),
        None => s,
    }
}

/// The sum of the hit counters.
pub open spec fn total_hits(s: Seq<Mock>) -> int
    decreases s.len(),
{
    if s.len() == 0 {
        0
    } else {
        total_hits(s.drop_last()) + s.last().hits
    }
}

/// Every mock keeps within its use limit.
pub open spec fn set_wf(s: Seq<Mock>) -> bool {
    forall|i: int| 0 <= i < s.len() ==> mock_wf(#[trigger] s[i])
}

/// The response given when no mock is selected.
pub open spec fn is_fallback(t: Then) -> bool {
    t.status == FALLBACK_STATUS && t.headers@.len() == 0 && t.body@.len() == 0
}

/// At most one mock is the choice for a request.
pub proof fn lemma_choice_unique(s: Seq<Mock>, r: Request, i: int, j: int)
    requires
        is_choice(s, r, i),
        is_choice(s, r, j),
    ensures
        i == j,
{
    if i != j {
        assert(outranks(s, i, j));
        assert(outranks(s, j, i));
    }
}

/// The highest-ranked eligible mock among the first `n`.
spec fn best_prefix(s: Seq<Mock>, r: Request, n: int) -> Option<int>
    decreases n,
{
    if n <= 0 {
        None
    } else {
        let b = best_prefix(s, r, n - 1);
        if eligible(s[n - 1], r) && (b is None || s[n - 1].priority > s[b->0].priority) {
            Some(n - 1)
        } else {
            b
        }
    }
}

/// The prefix scan finds the choice among the first `n` mocks, or no eligible one.
proof fn lemma_best_prefix(s: Seq<Mock>, r: Request, n: int)
    requires
        0 <= n <= s.len(),
    ensures
        best_prefix(s, r, n) matches Some(i) ==> {
            &&& 0 <= i < n
            &&& eligible(s[i], r)
            &&& forall|j: int| 0 <= j < n && j != i && eligible(#[trigger] s[j], r) ==> outranks(s, i, j)
        },
        best_prefix(s, r, n) is None ==> forall|j: int| 0 <= j < n ==> !eligible(#[trigger] s[j], r),
    decreases n,
{
    if n > 0 {
        lemma_best_prefix(s, r, n - 1);
    }
}

/// Selection returns the unique choice, and `None` exactly when no mock is eligible.
pub proof fn lemma_selection(s: Seq<Mock>, r: Request)
    ensures
        selection(s, r) matches Some(i) ==> is_choice(s, r, i),
        selection(s, r) is None <==> forall|j: int| 0 <= j < s.len() ==> !eligible(#[trigger] s[j], r),
        forall|i: int| is_choice(s, r, i) ==> selection(s, r) == Some(i),
{
    lemma_best_prefix(s, r, s.len() as int);
    if let Some(b) = best_prefix(s, r, s.len() as int) {
        assert(is_choice(s, r, b));
    }
    if exists|i: int| is_choice(s, r, i) {
        let c = choose|i: int| is_choice(s, r, i);
        assert forall|i: int| is_choice(s, r, i) implies selection(s, r) == Some(i) by {
            lemma_choice_unique(s, r, c, i);
        }
    }
}

/// Updating one mock changes the total by the change of its counter.
proof fn lemma_total_hits_update(s: Seq<Mock>, i: int, m: Mock)
    requires
        0 <= i < s.len(),
    ensures
        total_hits(s.update(i, m)) == total_hits(s) - s[i].hits + m.hits,
    decreases s.len(),
{
    let t = s.update(i, m);
    if i == s.len() - 1 {
        assert(t.drop_last() =~= s.drop_last());
    } else {
        lemma_total_hits_update(s.drop_last(), i, m);
        assert(t.drop_last() =~= s.drop_last().update(i, m));
    }
}

/// Of two eligible mocks, the one with the higher priority is preferred; at
/// equal priority the one inserted first is preferred. The other is never selected.
pub proof fn lemma_priority_order(s: Seq<Mock>, r: Request, hi: int, lo: int)
    requires
        0 <= hi < s.len(),
        0 <= lo < s.len(),
        eligible(s[hi], r),
        eligible(s[lo], r),
        s[hi].priority > s[lo].priority || (s[hi].priority == s[lo].priority && hi < lo),
    ensures
        selection(s, r) != Some(lo),
        selection(s, r) is Some,
{
    lemma_selection(s, r);
    if selection(s, r) == Some(lo) {
        assert(outranks(s, lo, hi));
    }
}

/// With exactly two mocks, both eligible, selection returns the one of higher
/// priority, or the earlier one at equal priority.
pub proof fn lemma_two_mocks(s: Seq<Mock>, r: Request)
    requires
        s.len() == 2,
        eligible(s[0], r),
        eligible(s[1], r),
    ensures
        s[1].priority > s[0].priority ==> selection(s, r) == Some(1int),
        s[1].priority <= s[0].priority ==> selection(s, r) == Some(0int),
{
    lemma_selection(s, r);
    if s[1].priority > s[0].priority {
        lemma_priority_order(s, r, 1, 0);
    } else {
        lemma_priority_order(s, r, 0, 1);
    }
}

/// A mock whose uses are spent is never selected, whatever the request; other
/// eligible mocks are still selected in its place.
pub proof fn lemma_exhausted_never_selected(s: Seq<Mock>, r: Request, i: int)
    requires
        0 <= i < s.len(),
        s[i].limit matches Some(l) && s[i].hits >= l,
    ensures
        selection(s, r) != Some(i),
        (exists|j: int| 0 <= j < s.len() && eligible(#[trigger] s[j], r)) ==> selection(s, r) is Some,
{
    lemma_selection(s, r);
}

/// Selection and consumption keep every mock within its limit, so a mock
/// with limit `n` fires at most `n` times over any sequence of requests.
pub proof fn lemma_limit_respected(s: Seq<Mock>, r: Request)
    requires
        set_wf(s),
    ensures
        set_wf(consumed(s, selection(s, r))),
{
    lemma_selection(s, r);
}

/// A mock with limit one that has not fired fires on the first request that
/// selects it, and is spent for every request after.
pub proof fn lemma_single_use(s: Seq<Mock>, r: Request, r2: Request, i: int)
    requires
        0 <= i < s.len(),
        s[i].limit == Some(1usize),
        s[i].hits == 0,
        selection(s, r) == Some(i),
    ensures
        consumed(s, selection(s, r))[i].hits == 1,
        selection(consumed(s, selection(s, r)), r2) != Some(i),
{
    let t = consumed(s, selection(s, r));
    lemma_exhausted_never_selected(t, r2, i);
}

/// Each request that finds a match adds exactly one to the sum of the hit
/// counters; one that finds none leaves it unchanged.
pub proof fn lemma_hits_count_matches(s: Seq<Mock>, r: Request)
    requires
        forall|i: int| 0 <= i < s.len() ==> #[trigger] s[i].hits < usize::MAX,
    ensures
        total_hits(consumed(s, selection(s, r))) == total_hits(s) + if selection(s, r) is Some {
            1int
        } else {
            0int
        },
{
    lemma_selection(s, r);
    if let Some(i) = selection(s, r) {
        lemma_total_hits_update(s, i, fired(s[i]));
    }
}

/// Inserting a mock adds its hit counter to the sum, so inserting a fresh
/// mock between selections leaves the count of matched requests intact.
pub proof fn lemma_insert_keeps_hits(s: Seq<Mock>, m: Mock)
    ensures
        total_hits(s.push(m)) == total_hits(s) + m.hits,
{
    assert(s.push(m).drop_last() =~= s);
}

impl MockSet {
    /// The registry is well formed: every mock keeps within its use limit.
    pub open spec fn wf(&self) -> bool {
        set_wf(self.mocks@)
    }

    /// An empty registry.
    pub fn new() -> (r: MockSet)
        ensures
            r.mocks@.len() == 0,
            r.wf(),
    {
        MockSet { mocks: Vec::new() }
    }

    /// Builds a registry from mocks in the given order.
    pub fn from_mocks(mocks: Vec<Mock>) -> (r: MockSet)
        requires
            set_wf(mocks@),
        ensures
            r.mocks@ == mocks@,
            r.wf(),
    {
        MockSet { mocks }
    }

    /// A copy of every mock, in the same order.
    pub fn copy(&self) -> (r: MockSet)
        requires
            self.wf(),
        ensures
            r.wf(),
            r.mocks@.len() == self.mocks@.len(),
            forall|i: int| 0 <= i < r.mocks@.len() ==> same_mock(#[trigger] r.mocks@[i], self.mocks@[i]),
    {
        let mut v: Vec<Mock> = Vec::new();
        let mut i: usize = 0;
        while i < self.mocks.len()
            invariant
                self.wf(),
                0 <= i <= self.mocks@.len(),
                v@.len() == i,
                forall|j: int| 0 <= j < i ==> same_mock(#[trigger] v@[j], self.mocks@[j]),
            decreases self.mocks@.len() - i,
        {
            v.push(self.mocks[i].copy());
            i = i + 1;
        }
        MockSet { mocks: v }
    }

    pub fn len(&self) -> (r: usize)
        ensures
            r == self.mocks@.len(),
    {
        self.mocks.len()
    }

    pub fn is_empty(&self) -> (r: bool)
        ensures
            r == (self.mocks@.len() == 0),
    {
        self.mocks.len() == 0
    }

    /// Appends a mock; it takes the next insertion sequence number.
    pub fn insert(&mut self, mock: Mock)
        requires
            old(self).wf(),
            mock_wf(mock),
        ensures
            final(self).mocks@ == old(self).mocks@.push(mock),
            final(self).wf(),
    {
        self.mocks.push(mock);
    }

    /// Removes every mock.
    pub fn clear(&mut self)
        ensures
            final(self).mocks@.len() == 0,
            final(self).wf(),
    {
        self.mocks = Vec::new();
    }

    /// The hit counter of each mock, in insertion order.
    pub fn hits(&self) -> (r: Vec<usize>)
        ensures
            r@.len() == self.mocks@.len(),
            forall|i: int| 0 <= i < r@.len() ==> #[trigger] r@[i] == self.mocks@[i].hits,
    {
        let mut r: Vec<usize> = Vec::new();
        let mut i: usize = 0;
        while i < self.mocks.len()
            invariant
                0 <= i <= self.mocks@.len(),
                r@.len() == i,
                forall|j: int| 0 <= j < i ==> #[trigger] r@[j] == self.mocks@[j].hits,
            decreases self.mocks@.len() - i,
        {
            r.push(self.mocks[i].hits);
            i = i + 1;
        }
        r
    }

    /// The index of the mock that serves `r`: among the mocks that match and
    /// have uses left, the highest priority, then the earliest inserted.
    pub fn select(&self, r: &Request) -> (sel: Option<usize>)
        ensures
            match sel {
                Some(i) => selection(self.mocks@, *r) == Some(i as int),
                None => selection(self.mocks@, *r) is None,
            },
    {
        let ghost s = self.mocks@;
        let mut best: Option<usize> = None;
        let mut k: usize = 0;
        while k < self.mocks.len()
            invariant
                s == self.mocks@,
                0 <= k <= s.len(),
                best matches Some(b) ==> {
                    &&& 0 <= b < k
                    &&& eligible(s[b as int], *r)
                    &&& forall|j: int|
                        0 <= j < k && j != b && eligible(#[trigger] s[j], *r) ==> outranks(s, b as int, j)
                },
                best is None ==> forall|j: int| 0 <= j < k ==> !eligible(#[trigger] s[j], *r),
            decreases s.len() - k,
        {
            let m = &self.mocks[k];
            if m.is_eligible(r) {
                let better = match best {
                    Some(b) => m.priority > self.mocks[b].priority,
                    None => true,
                };
                if better {
                    best = Some(k);
                }
            }
            k = k + 1;
        }
        proof {
            lemma_selection(s, *r);
        }
        best
    }

    /// Selects the mock for `r` and records the firing in one step; returns a
    /// copy of its response, or `None` when no mock is eligible.
    pub fn next_response(&mut self, r: &Request) -> (resp: Option<Then>)
        requires
            old(self).wf(),
        ensures
            final(self).wf(),
            final(self).mocks@ == consumed(old(self).mocks@, selection(old(self).mocks@, *r)),
            match selection(old(self).mocks@, *r) {
                Some(i) => resp matches Some(t) && same_response(t, old(self).mocks@[i].response),
                None => resp is None,
            },
    {
        match self.select(r) {
            Some(i) => {
                let resp = self.mocks[i].response.copy();
                let mut m = self.mocks.remove(i);
                m.fire();
                self.mocks.insert(i, m);
                proof {
                    lemma_selection(old(self).mocks@, *r);
                    assert(self.mocks@ =~= old(self).mocks@.update(i as int, fired(old(self).mocks@[i as int])));
                }
                Some(resp)
            },
            None => None,
        }
    }

    /// Serves `r`: the selected mock's response, or the fallback response
    /// (status 404, no headers, empty body) when no mock is eligible.
    pub fn respond(&mut self, r: &Request) -> (resp: Then)
        requires
            old(self).wf(),
        ensures
            final(self).wf(),
            final(self).mocks@ == consumed(old(self).mocks@, selection(old(self).mocks@, *r)),
            match selection(old(self).mocks@, *r) {
                Some(i) => same_response(resp, old(self).mocks@[i].response),
                None => is_fallback(resp),
            },
    {
        match self.next_response(r) {
            Some(t) => t,
            None => Then::status(FALLBACK_STATUS),
        }
    }
}

} // verus!
