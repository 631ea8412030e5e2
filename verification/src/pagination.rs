//! Cursor-pagination aggregation: repeatedly absorb pages of a remote
//! listing until the cursor runs out or a caller-supplied item cap is
//! reached.
//!
//! The transport loop (fetch a page for the current cursor) lives with
//! the caller; `DrainState` makes every decision of that loop, so the
//! accumulation, the hard cap and the stop conditions are verified.
//! `drain_pages` runs the same decisions over pages already in memory
//! and realizes the whole aggregation as a pure function.

use vstd::prelude::*;

use crate::models::{PinataFile, PinataFilesData, PinataGroup, PinataGroupData};

verus! {

/// One page of a remote listing: its items in order, and the opaque
/// cursor of the next page. `next_page_token = None` marks the final
/// page; page size is whatever the upstream chose.
#[derive(Debug, Clone, PartialEq, Eq)]
pub struct Page<T> {
    pub items: Vec<T>,
    pub next_page_token: Option<String>,
}

/// All items of `pages` in order.
pub open spec fn spec_flatten<T>(pages: Seq<Page<T>>) -> Seq<T>
    decreases pages.len(),
{
    if pages.len() == 0 {
        Seq::empty()
    } else {
        pages[0].items@ + spec_flatten(pages.drop_first())
    }
}

/// Item count of the first `k` pages.
pub open spec fn spec_prefix_len<T>(pages: Seq<Page<T>>, k: int) -> nat
    decreases k,
{
    if k <= 0 || pages.len() == 0 {
        0
    } else {
        pages[0].items@.len() + spec_prefix_len(pages.drop_first(), k - 1)
    }
}

/// One drain step: the accumulator after absorbing `page`, and whether
/// the drain is finished. The cap is a hard cap: reaching it truncates
/// to exactly the cap and stops before the cursor is even considered.
pub open spec fn spec_step<T>(acc: Seq<T>, limit: Option<usize>, page: Page<T>) -> (Seq<T>, bool) {
    let acc2 = acc + page.items@;
    if limit is Some && acc2.len() >= limit->0 {
        (acc2.take(limit->0 as int), true)
    } else if page.next_page_token is None {
        (acc2, true)
    } else {
        (acc2, false)
    }
}

/// The drain over `pages` starting from accumulator `acc`: the final
/// accumulator and the number of pages fetched. Consuming stops at the
/// cap, at a page without a cursor, or when the pages run out.
pub open spec fn spec_drain_rec<T>(pages: Seq<Page<T>>, limit: Option<usize>, acc: Seq<T>) -> (
    Seq<T>,
    nat,
)
    decreases pages.len(),
{
    if pages.len() == 0 {
        (acc, 0nat)
    } else {
        let step = spec_step(acc, limit, pages[0]);
        if step.1 {
            (step.0, 1nat)
        } else {
            let rest = spec_drain_rec(pages.drop_first(), limit, step.0);
            (rest.0, rest.1 + 1)
        }
    }
}

/// The drain over `pages` from an empty accumulator.
pub open spec fn spec_drain<T>(pages: Seq<Page<T>>, limit: Option<usize>) -> (Seq<T>, nat) {
    spec_drain_rec(pages, limit, Seq::empty())
}

/// The evolving state of one drain: the items accumulated so far, the
/// caller's cap, how many pages were fetched, whether the drain is
/// finished, and — while it is not — the cursor to fetch next.
#[derive(Debug)]
pub struct DrainState<T> {
    pub items: Vec<T>,
    pub limit: Option<usize>,
    pub fetched: usize,
    pub done: bool,
    pub cursor: Option<String>,
}

impl<T> DrainState<T> {
    /// A fresh drain: nothing fetched, first fetch carries no cursor.
    pub fn new(limit: Option<usize>) -> (s: Self)
        ensures
            s.items@ == Seq::<T>::empty(),
            s.limit == limit,
            s.fetched == 0,
            !s.done,
            s.cursor is None,
    {
        DrainState { items: Vec::new(), limit, fetched: 0, done: false, cursor: None }
    }

    /// Absorbs one fetched page, exactly as `spec_step` says: append the
    /// page's items; if the cap is reached, truncate to the cap and
    /// finish; otherwise finish when the page carries no cursor, or
    /// continue with that cursor.
    pub fn absorb(&mut self, page: Page<T>)
        requires
            !old(self).done,
            old(self).fetched < usize::MAX,
        ensures
            final(self).items@ == spec_step(old(self).items@, old(self).limit, page).0,
            final(self).done == spec_step(old(self).items@, old(self).limit, page).1,
            final(self).limit == old(self).limit,
            final(self).fetched == old(self).fetched + 1,
            !final(self).done ==> final(self).cursor == page.next_page_token,
    {
        let mut page = page;
        self.items.append(&mut page.items);
        self.fetched = self.fetched + 1;
        let mut finished = false;
        if let Some(cap) = self.limit {
            if self.items.len() >= cap {
                self.items.truncate(cap);
                finished = true;
            }
        }
        if !finished {
            match page.next_page_token {
                None => {
                    finished = true;
                },
                Some(token) => {
                    self.cursor = Some(token);
                },
            }
        }
        self.done = finished;
    }
}

/// Drains a sequence of pages already in memory: the aggregated items
/// and the number of pages consumed, exactly `spec_drain`.
pub fn drain_pages<T>(pages: Vec<Page<T>>, limit: Option<usize>) -> (r: (Vec<T>, usize))
    ensures
        r.0@ == spec_drain(pages@, limit).0,
        r.1 == spec_drain(pages@, limit).1,
{
    let ghost orig = pages@;
    let mut pages = pages;
    let total = pages.len();
    let mut st = DrainState::<T>::new(limit);
    while !st.done && pages.len() > 0
        invariant
            st.limit == limit,
            st.fetched + pages@.len() == orig.len(),
            orig.len() <= usize::MAX,
            !st.done ==> spec_drain_rec(pages@, limit, st.items@).0 == spec_drain(orig, limit).0
                && spec_drain_rec(pages@, limit, st.items@).1 + st.fetched == spec_drain(
                orig,
                limit,
            ).1,
            st.done ==> st.items@ == spec_drain(orig, limit).0 && st.fetched == spec_drain(
                orig,
                limit,
            ).1,
        decreases pages@.len(),
    {
        let ghost before = pages@;
        let page = pages.remove(0);
        proof {
            assert(pages@ =~= before.drop_first());
        }
        st.absorb(page);
    }
    (st.items, st.fetched)
}

proof fn lemma_drain_no_limit_rec<T>(pages: Seq<Page<T>>, acc: Seq<T>)
    requires
        forall|i: int| 0 <= i < pages.len() - 1 ==> pages[i].next_page_token is Some,
        pages.len() > 0 ==> pages[pages.len() - 1].next_page_token is None,
    ensures
        spec_drain_rec(pages, None, acc).0 == acc + spec_flatten(pages),
        spec_drain_rec(pages, None, acc).1 == pages.len(),
    decreases pages.len(),
{
    if pages.len() == 0 {
        assert(acc + spec_flatten(pages) =~= acc);
    } else {
        let acc2 = acc + pages[0].items@;
        if pages[0].next_page_token is None {
            assert(pages.len() == 1) by {
                if pages.len() > 1 {
                    assert(pages[0].next_page_token is Some);
                }
            }
            assert(spec_flatten(pages.drop_first()) =~= Seq::<T>::empty());
            assert(acc2 =~= acc + spec_flatten(pages));
        } else {
            assert(pages.len() > 1) by {
                if pages.len() == 1 {
                    assert(pages[pages.len() - 1].next_page_token is None);
                }
            }
            lemma_drain_no_limit_rec(pages.drop_first(), acc2);
            assert(acc2 + spec_flatten(pages.drop_first()) =~= acc + spec_flatten(pages));
        }
    }
}

/// Law: for a listing of `k` pages holding `N` items in all, whose final
/// page alone carries no cursor, the uncapped drain returns exactly the
/// `N` items in their original order and makes exactly `k` fetches.
pub proof fn lemma_drain_no_limit_exhausts<T>(pages: Seq<Page<T>>)
    requires
        pages.len() > 0,
        forall|i: int| 0 <= i < pages.len() - 1 ==> pages[i].next_page_token is Some,
        pages[pages.len() - 1].next_page_token is None,
    ensures
        spec_drain(pages, None).0 == spec_flatten(pages),
        spec_drain(pages, None).1 == pages.len(),
{
    lemma_drain_no_limit_rec(pages, Seq::empty());
    assert(Seq::<T>::empty() + spec_flatten(pages) =~= spec_flatten(pages));
}

proof fn lemma_drain_limit_rec<T>(pages: Seq<Page<T>>, cap: usize, acc: Seq<T>)
    requires
        forall|i: int| 0 <= i < pages.len() - 1 ==> pages[i].next_page_token is Some,
        acc.len() < cap,
        cap <= acc.len() + spec_flatten(pages).len(),
    ensures
        spec_drain_rec(pages, Some(cap), acc).0 == (acc + spec_flatten(pages)).take(cap as int),
        1 <= spec_drain_rec(pages, Some(cap), acc).1 <= pages.len(),
        acc.len() + spec_prefix_len(pages, spec_drain_rec(pages, Some(cap), acc).1 as int) >= cap,
        forall|k: int|
            1 <= k < spec_drain_rec(pages, Some(cap), acc).1 ==> acc.len() + spec_prefix_len(
                pages,
                k,
            ) < cap,
    decreases pages.len(),
{
    assert(pages.len() > 0);
    let acc2 = acc + pages[0].items@;
    let rest = pages.drop_first();
    assert(spec_flatten(pages) == pages[0].items@ + spec_flatten(rest));
    if acc2.len() >= cap {
        assert((acc + spec_flatten(pages)).take(cap as int) =~= acc2.take(cap as int));
        assert(spec_prefix_len(pages, 1) == pages[0].items@.len() + spec_prefix_len(rest, 0));
    } else {
        assert(spec_flatten(rest).len() > 0);
        assert(rest.len() > 0) by {
            if rest.len() == 0 {
                assert(spec_flatten(rest) =~= Seq::<T>::empty());
            }
        }
        assert(pages[0].next_page_token is Some);
        lemma_drain_limit_rec(rest, cap, acc2);
        assert(acc2 + spec_flatten(rest) =~= acc + spec_flatten(pages));
        let sub = spec_drain_rec(rest, Some(cap), acc2);
        assert(spec_drain_rec(pages, Some(cap), acc) == (sub.0, sub.1 + 1));
        assert forall|k: int| 1 <= k < sub.1 + 1 implies acc.len() + spec_prefix_len(pages, k)
            < cap by {
            if k == 1 {
                assert(spec_prefix_len(pages, 1) == pages[0].items@.len() + spec_prefix_len(
                    rest,
                    0,
                ));
            } else {
                assert(spec_prefix_len(pages, k) == pages[0].items@.len() + spec_prefix_len(
                    rest,
                    k - 1,
                ));
            }
        }
        assert(spec_prefix_len(pages, (sub.1 + 1) as int) == pages[0].items@.len()
            + spec_prefix_len(rest, sub.1 as int));
    }
}

/// Law: a cap below the item total is a hard cap. The drain returns
/// exactly the first `cap` items, stops fetching with the first page
/// that brings the running total to the cap, and fetches no page after
/// it — whatever pages remain.
pub proof fn lemma_drain_limit_caps<T>(pages: Seq<Page<T>>, cap: usize)
    requires
        forall|i: int| 0 <= i < pages.len() - 1 ==> pages[i].next_page_token is Some,
        (cap as nat) < spec_flatten(pages).len(),
    ensures
        spec_drain(pages, Some(cap)).0 == spec_flatten(pages).take(cap as int),
        spec_drain(pages, Some(cap)).0.len() == cap,
        1 <= spec_drain(pages, Some(cap)).1 <= pages.len(),
        spec_prefix_len(pages, spec_drain(pages, Some(cap)).1 as int) >= cap,
        forall|k: int|
            1 <= k < spec_drain(pages, Some(cap)).1 ==> spec_prefix_len(pages, k) < cap,
{
    assert(pages.len() > 0) by {
        if pages.len() == 0 {
            assert(spec_flatten(pages) =~= Seq::<T>::empty());
        }
    }
    if cap == 0 {
        let acc2 = Seq::<T>::empty() + pages[0].items@;
        assert(spec_drain(pages, Some(0)).0 =~= spec_flatten(pages).take(0));
        assert(spec_prefix_len(pages, 1) == pages[0].items@.len() + spec_prefix_len(
            pages.drop_first(),
            0,
        ));
    } else {
        lemma_drain_limit_rec(pages, cap, Seq::empty());
        assert(Seq::<T>::empty() + spec_flatten(pages) =~= spec_flatten(pages));
    }
}

/// Reads a page of the upstream group listing as a drain page.
pub fn group_page(data: PinataGroupData) -> (p: Page<PinataGroup>)
    ensures
        p.items == data.groups,
        p.next_page_token == data.next_page_token,
{
    Page { items: data.groups, next_page_token: data.next_page_token }
}

/// Reads a page of the upstream file listing as a drain page.
pub fn file_page(data: PinataFilesData) -> (p: Page<PinataFile>)
    ensures
        p.items == data.files,
        p.next_page_token == data.next_page_token,
{
    Page { items: data.files, next_page_token: data.next_page_token }
}

} // verus!
