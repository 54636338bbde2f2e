//! The pagination cursor: walking a paginated listing from a start index to
//! a fixed bound, or until the listing itself reports no further pages.
//!
//! The caller fetches page `cursor.current` and processes it; after each
//! successful fetch it calls `observe_total` with the `total_pages` the page
//! reported (which, under `UntilExhausted`, re-reads the bound on every
//! page), then `advance`. Fetch errors are surfaced to the caller and end
//! the enumeration; there is no page-level retry.

use vstd::prelude::*;

verus! {

/// One page of a paginated listing: its items and where it stands in the
/// listing.
#[derive(Clone, Debug)]
pub struct Page<T> {
    pub items: Vec<T>,
    /// Position of this page in the listing, counted from one.
    pub current_index: u64,
    /// How many pages the listing reports in all.
    pub total_pages: u64,
    /// How many items the listing reports in all.
    pub total_items: u64,
}

impl<T> Page<T> {
    /// A listing with any pages at all numbers them from one, and this page
    /// is one of them.
    pub open spec fn wf(self) -> bool {
        self.total_pages > 0 ==> 1 <= self.current_index <= self.total_pages
    }

    /// Assemble a page. The caller vouches for the indices the listing
    /// reported.
    pub fn new(items: Vec<T>, current_index: u64, total_pages: u64, total_items: u64) -> (p: Page<
        T,
    >)
        requires
            total_pages > 0 ==> 1 <= current_index <= total_pages,
        ensures
            p.items == items,
            p.current_index == current_index,
            p.total_pages == total_pages,
            p.total_items == total_items,
            p.wf(),
    {
        Page { items, current_index, total_pages, total_items }
    }

    /// Whether the listing has a page after this one.
    pub fn has_next(&self) -> (r: bool)
        ensures
            r == (self.current_index < self.total_pages),
    {
        self.current_index < self.total_pages
    }

    /// The index of the page after this one.
    pub fn next_index(&self) -> (r: u64)
        requires
            self.current_index < self.total_pages,
        ensures
            r == self.current_index + 1,
    {
        self.current_index + 1
    }

    /// How many items this page holds.
    pub fn len(&self) -> (r: usize)
        ensures
            r == self.items@.len(),
    {
        self.items.len()
    }
}

/// Where an enumeration stops: at a caller-given page index, or wherever the
/// listing last said its pages end.
#[derive(Clone, Copy, PartialEq, Eq, Structural, Debug)]
pub enum EndPolicy {
    /// Visit pages up to and including this index.
    Fixed(u64),
    /// Re-read the bound from every fetched page's `total_pages`.
    UntilExhausted,
}

/// The mutable state of one enumeration.
#[derive(Clone, Copy, PartialEq, Eq, Structural, Debug)]
pub struct PaginationCursor {
    /// The page to fetch next (or being processed).
    pub current: u64,
    /// The last page to visit, as currently resolved.
    pub end: u64,
    /// Whether `end` is re-read from each fetched page.
    pub until_exhausted: bool,
}

/// A fresh cursor: starts at `start`; under `UntilExhausted` the bound
/// defaults to `start` until a page has reported one.
pub open spec fn cursor_new_spec(start: u64, policy: EndPolicy) -> PaginationCursor {
    PaginationCursor {
        current: start,
        end: match policy {
            EndPolicy::Fixed(n) => n,
            EndPolicy::UntilExhausted => start,
        },
        until_exhausted: policy is UntilExhausted,
    }
}

/// What a fetched page's reported `total_pages` does to the cursor: under
/// `UntilExhausted` it becomes the bound; under `Fixed` it is ignored.
pub open spec fn observe_spec(c: PaginationCursor, total_pages: u64) -> PaginationCursor {
    if c.until_exhausted {
        PaginationCursor { end: total_pages, ..c }
    } else {
        c
    }
}

/// Moving past the page just processed: step to the next index while the
/// bound has not been reached, stop otherwise.
pub open spec fn advance_spec(c: PaginationCursor) -> (PaginationCursor, bool) {
    if c.current < c.end {
        (PaginationCursor { current: (c.current + 1) as u64, ..c }, true)
    } else {
        (c, false)
    }
}

impl PaginationCursor {
    /// Begin an enumeration at `start` under `policy`.
    pub fn new(start: u64, policy: EndPolicy) -> (c: PaginationCursor)
        ensures
            c == cursor_new_spec(start, policy),
    {
        match policy {
            EndPolicy::Fixed(n) => PaginationCursor { current: start, end: n, until_exhausted: false },
            EndPolicy::UntilExhausted => PaginationCursor {
                current: start,
                end: start,
                until_exhausted: true,
            },
        }
    }

    /// Record the `total_pages` the page just fetched reported.
    pub fn observe_total(&self, total_pages: u64) -> (c: PaginationCursor)
        ensures
            c == observe_spec(*self, total_pages),
    {
        if self.until_exhausted {
            PaginationCursor { end: total_pages, ..*self }
        } else {
            *self
        }
    }

    /// Step past the page just processed. Returns the new cursor and whether
    /// another page is to be fetched.
    pub fn advance(&self) -> (r: (PaginationCursor, bool))
        ensures
            r == advance_spec(*self),
    {
        if self.current < self.end {
            (PaginationCursor { current: self.current + 1, ..*self }, true)
        } else {
            (*self, false)
        }
    }
}

/// The end policy a command's arguments resolve to: walking until the
/// listing is exhausted overrides any bound; otherwise the bound is the
/// given end index, defaulting to the start (a single page).
pub open spec fn resolve_end_policy_spec(start: u64, end: Option<u64>, until_end: bool) -> EndPolicy {
    if until_end {
        EndPolicy::UntilExhausted
    } else {
        EndPolicy::Fixed(
            match end {
                Some(n) => n,
                None => start,
            },
        )
    }
}

/// Resolve a command's paging arguments into an end policy.
pub fn resolve_end_policy(start: u64, end: Option<u64>, until_end: bool) -> (p: EndPolicy)
    ensures
        p == resolve_end_policy_spec(start, end, until_end),
{
    if until_end {
        EndPolicy::UntilExhausted
    } else {
        match end {
            Some(n) => EndPolicy::Fixed(n),
            None => EndPolicy::Fixed(start),
        }
    }
}

/// The page indices an enumeration visits from cursor `c`, when the
/// successive fetches report the `total_pages` values in `totals` (one entry
/// per fetched page; the trace ends if the reports run out).
pub open spec fn visited_from(c: PaginationCursor, totals: Seq<u64>) -> Seq<u64>
    decreases totals.len(),
{
    if totals.len() == 0 {
        Seq::empty()
    } else {
        let c1 = observe_spec(c, totals[0]);
        let (c2, more) = advance_spec(c1);
        seq![c.current] + if more {
            visited_from(c2, totals.drop_first())
        } else {
            Seq::empty()
        }
    }
}

/// The page indices an enumeration from `start` under `policy` visits.
pub open spec fn enumeration_visits(start: u64, policy: EndPolicy, totals: Seq<u64>) -> Seq<u64> {
    visited_from(cursor_new_spec(start, policy), totals)
}

/// The working part of the two enumeration laws: from a cursor whose bound
/// is pinned at `n` — either fixed, or re-read from pages that all report
/// `n` — the visits are exactly `current, current + 1, ..., n`.
proof fn lemma_visits_exact(c: PaginationCursor, n: u64, totals: Seq<u64>)
    requires
        c.current <= n,
        totals.len() >= n - c.current + 1,
        c.until_exhausted ==> forall|i: int| 0 <= i < totals.len() ==> totals[i] == n,
        !c.until_exhausted ==> c.end == n,
    ensures
        visited_from(c, totals).len() == n - c.current + 1,
        forall|i: int|
            0 <= i < visited_from(c, totals).len() ==> visited_from(c, totals)[i] == c.current
                + i,
    decreases n - c.current,
{
    let c1 = observe_spec(c, totals[0]);
    let (c2, more) = advance_spec(c1);
    if c.current < n {
        assert(forall|i: int|
            0 <= i < totals.drop_first().len() ==> totals.drop_first()[i] == totals[i + 1]);
        lemma_visits_exact(c2, n, totals.drop_first());
    }
}

/// Enumeration termination under a fixed bound: for `Fixed(n)` with
/// `start <= n`, given at least as many successful fetches as pages in
/// range, the enumeration visits each page index in `[start, n]` exactly
/// once, in increasing order, whatever `total_pages` the pages report.
pub proof fn lemma_fixed_enumeration(start: u64, n: u64, totals: Seq<u64>)
    requires
        start <= n,
        totals.len() >= n - start + 1,
    ensures
        enumeration_visits(start, EndPolicy::Fixed(n), totals).len() == n - start + 1,
        forall|i: int|
            0 <= i < enumeration_visits(start, EndPolicy::Fixed(n), totals).len()
                ==> enumeration_visits(start, EndPolicy::Fixed(n), totals)[i] == start + i,
{
    lemma_visits_exact(cursor_new_spec(start, EndPolicy::Fixed(n)), n, totals);
}

/// Until-exhausted enumeration: when every fetched page reports
/// `total_pages == p` and `start <= p`, the enumeration visits exactly the
/// pages `[start, p]`, each once, in increasing order.
pub proof fn lemma_until_exhausted_enumeration(start: u64, p: u64, totals: Seq<u64>)
    requires
        start <= p,
        totals.len() >= p - start + 1,
        forall|i: int| 0 <= i < totals.len() ==> totals[i] == p,
    ensures
        enumeration_visits(start, EndPolicy::UntilExhausted, totals).len() == p - start + 1,
        forall|i: int|
            0 <= i < enumeration_visits(start, EndPolicy::UntilExhausted, totals).len()
                ==> enumeration_visits(start, EndPolicy::UntilExhausted, totals)[i] == start + i,
{
    lemma_visits_exact(cursor_new_spec(start, EndPolicy::UntilExhausted), p, totals);
}

} // verus!
