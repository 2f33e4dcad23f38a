//! Walking a paged listing: pages are requested in increasing offset order until an
//! entry matches or the listing runs out.

use vstd::prelude::*;

verus! {

/// What to do after looking at one page.
#[derive(Debug, Clone, Copy, PartialEq, Eq, Structural)]
pub enum PageStep {
    /// The entry at this index of the page is the answer.
    Found(usize),
    /// Request the page at this offset next.
    Next(u64),
    /// No page is left to request.
    Exhausted,
}

pub open spec fn page_step(offset: u64, limit: u64, count: u64, page_len: nat, found: Option<usize>) -> PageStep {
    match found {
        Some(i) => PageStep::Found(i),
        None => if limit == 0 || page_len < limit || offset + limit >= count {
            PageStep::Exhausted
        } else {
            PageStep::Next((offset + limit) as u64)
        },
    }
}

/// The step after a page of `page_len` entries requested at `offset` with page size
/// `limit`, from a listing that declares `count` entries in all, in which `found` is
/// the matching entry if any. The walk ends at a page shorter than the page size, or
/// when the next offset reaches the declared count.
pub fn next_page_step(offset: u64, limit: u64, count: u64, page_len: usize, found: Option<usize>) -> (r: PageStep)
    ensures
        r == page_step(offset, limit, count, page_len as nat, found),
{
    match found {
        Some(i) => PageStep::Found(i),
        None => {
            if limit == 0 || (page_len as u128) < (limit as u128) {
                PageStep::Exhausted
            } else {
                match offset.checked_add(limit) {
                    Some(n) => if n >= count {
                        PageStep::Exhausted
                    } else {
                        PageStep::Next(n)
                    },
                    None => PageStep::Exhausted,
                }
            }
        },
    }
}

/// The index of the first true entry of `s`.
pub open spec fn first_true(s: Seq<bool>) -> Option<usize>
    decreases s.len(),
{
    if s.len() == 0 {
        None
    } else if s[0] {
        Some(0usize)
    } else {
        match first_true(s.skip(1)) {
            Some(i) => if i < usize::MAX {
                Some((i + 1) as usize)
            } else {
                None
            },
            None => None,
        }
    }
}

/// The index of the first entry of `page` that qualifies.
pub fn first_match(page: &[bool]) -> (r: Option<usize>)
    ensures
        r == first_true(page@),
{
    let mut i: usize = 0;
    proof {
        assert(page@.skip(0) == page@);
    }
    while i < page.len()
        invariant
            0 <= i <= page@.len(),
            forall|j: int| 0 <= j < i ==> !page@[j],
            first_true(page@) == match first_true(page@.skip(i as int)) {
                Some(k) => if k + i <= usize::MAX {
                    Some((k + i) as usize)
                } else {
                    None
                },
                None => None,
            },
        decreases page@.len() - i,
    {
        if page[i] {
            proof {
                assert(page@.skip(i as int)[0]);
            }
            return Some(i);
        }
        proof {
            assert(page@.skip(i as int).skip(1) == page@.skip(i + 1));
        }
        i += 1;
    }
    None
}

/// Simulates the walk over a listing whose pages say, entry by entry, whether the
/// entry qualifies: the number of requests made from page `p` on, and the page and
/// index of the answer. A request beyond the last page gets an empty page.
pub open spec fn walk(pages: Seq<Seq<bool>>, limit: u64, count: u64, p: nat) -> (nat, Option<(nat, usize)>)
    decreases pages.len() - p,
{
    if p >= pages.len() {
        (1, None)
    } else {
        match page_step((p * limit) as u64, limit, count, pages[p as int].len(), first_true(pages[p as int])) {
            PageStep::Found(i) => (1, Some((p, i))),
            PageStep::Exhausted => (1, None),
            PageStep::Next(_) => {
                let rest = walk(pages, limit, count, p + 1);
                (rest.0 + 1, rest.1)
            },
        }
    }
}

/// When the first qualifying entry is at index `i` of page `k`, every earlier page is
/// full and page `k` starts below the declared count, the walk finds it with exactly
/// `k + 1` requests: no page beyond it is requested.
pub proof fn lemma_walk_stops_at_match(pages: Seq<Seq<bool>>, limit: u64, count: u64, k: nat, i: usize)
    requires
        k < pages.len(),
        first_true(pages[k as int]) == Some(i),
        forall|q: int| 0 <= q < k ==> first_true(#[trigger] pages[q]) is None,
        forall|q: int| 0 <= q < k ==> #[trigger] pages[q].len() == limit,
        k * limit < count,
        limit > 0,
    ensures
        walk(pages, limit, count, 0) == (k + 1, Some((k, i))),
{
    lemma_walk_from(pages, limit, count, k, i, 0);
}

proof fn lemma_walk_from(pages: Seq<Seq<bool>>, limit: u64, count: u64, k: nat, i: usize, p: nat)
    requires
        p <= k < pages.len(),
        first_true(pages[k as int]) == Some(i),
        forall|q: int| 0 <= q < k ==> first_true(#[trigger] pages[q]) is None,
        forall|q: int| 0 <= q < k ==> #[trigger] pages[q].len() == limit,
        k * limit < count,
        limit > 0,
    ensures
        walk(pages, limit, count, p) == ((k + 1 - p) as nat, Some((k, i))),
    decreases k - p,
{
    if p < k {
        assert(first_true(pages[p as int]) is None);
        assert(pages[p as int].len() == limit);
        assert((p + 1) * limit <= k * limit) by (nonlinear_arith)
            requires
                p < k,
        ;
        assert(p * limit <= k * limit) by (nonlinear_arith)
            requires
                p < k,
        ;
        assert(p * limit + limit == (p + 1) * limit) by (nonlinear_arith);
        lemma_walk_from(pages, limit, count, k, i, p + 1);
    }
}

/// The walk never requests a page at or past the declared count: when the page at
/// `p` is not a match, the next one is requested only if its offset is below `count`.
pub proof fn lemma_walk_respects_count(offset: u64, limit: u64, count: u64, page_len: nat)
    ensures
        page_step(offset, limit, count, page_len, None) matches PageStep::Next(n) ==> n < count
            && n == offset + limit,
{
}

} // verus!
