//! Drivers that pull a pagination sequence over an in-memory collection,
//! together with the laws they obey: how many items come out, in what
//! order, and exactly how many fetches each consumption pattern costs.
//!
//! `fetch_page` plays the server here: it answers a fetch request with
//! the page an upstream collection of known content would return. The
//! drivers answer every `Step::Fetch` of a [`Pager`] with such a page,
//! so each of their contracts is a proved statement about the engine
//! itself: the same pulls against a remote server cost the same fetches.

use vstd::prelude::*;

verus! {

use crate::paginator::{Pager, Step};

/// Rounded-up division: the least `f` with `n <= f * p`.
pub open spec fn ceil_div(n: int, p: int) -> int {
    (n + p - 1) / p
}

/// The page a fetch at `skip` with the given `limit` returns over an
/// upstream collection: the next `limit` items, short or empty when the
/// collection runs out.
pub open spec fn page_of<T>(u: Seq<T>, skip: int, limit: int) -> Seq<T> {
    if skip >= u.len() {
        Seq::empty()
    } else if skip + limit >= u.len() {
        u.subrange(skip, u.len() as int)
    } else {
        u.subrange(skip, skip + limit)
    }
}

/// Fetches that pulling a sequence all the way to its reported end
/// costs over `n` items with page size `p`: one per non-empty page and
/// the one empty page that reveals the end — so exactly one fetch for
/// an upstream that is empty from the start.
pub open spec fn fetches_to_end(n: int, p: int) -> int {
    ceil_div(n, p) + 1
}

/// An upstream collection that is empty from the start costs exactly
/// one fetch to recognise: the first page comes back empty and the
/// sequence ends immediately, with zero items emitted and no error.
pub proof fn lemma_empty_upstream_one_fetch(p: int)
    requires
        p >= 1,
    ensures
        fetches_to_end(0, p) == 1,
{
    assert((0 + p - 1) / p == 0) by (nonlinear_arith)
        requires
            p >= 1,
    ;
}

proof fn lemma_ceil_div_unique(k: int, p: int, f: int)
    requires
        p >= 1,
        f >= 1,
        (f - 1) * p < k,
        k <= f * p,
    ensures
        ceil_div(k, p) == f,
{
    assert((k + p - 1) / p == f) by (nonlinear_arith)
        requires
            p >= 1,
            f >= 1,
            (f - 1) * p < k,
            k <= f * p,
    ;
}

proof fn lemma_ceil_div_bounds(n: int, p: int)
    requires
        p >= 1,
        n >= 0,
    ensures
        0 <= ceil_div(n, p) <= n,
        n <= ceil_div(n, p) * p,
{
    assert(0 <= (n + p - 1) / p <= n && n <= ((n + p - 1) / p) * p) by (nonlinear_arith)
        requires
            p >= 1,
            n >= 0,
    ;
}

/// Answer a fetch request over an in-memory upstream collection.
pub fn fetch_page<T: Copy>(upstream: &Vec<T>, skip: usize, limit: usize) -> (page: Vec<T>)
    ensures
        page@ == page_of(upstream@, skip as int, limit as int),
{
    let mut page: Vec<T> = Vec::new();
    if skip >= upstream.len() {
        proof {
            assert(page@ =~= page_of(upstream@, skip as int, limit as int));
        }
        return page;
    }
    let end: usize = if upstream.len() - skip < limit {
        upstream.len()
    } else {
        skip + limit
    };
    let mut i: usize = skip;
    while i < end
        invariant
            skip <= i <= end <= upstream@.len(),
            page@ == upstream@.subrange(skip as int, i as int),
        decreases end - i,
    {
        proof {
            assert(upstream@.subrange(skip as int, i + 1) =~= upstream@.subrange(
                skip as int,
                i as int,
            ).push(upstream@[i as int]));
        }
        page.push(upstream[i]);
        i = i + 1;
    }
    proof {
        assert(page@ =~= page_of(upstream@, skip as int, limit as int));
    }
    page
}

/// Pull at most `k` items from a pagination sequence over the given
/// upstream collection.
///
/// Its contract is the consumption law of the engine: the items come
/// out in upstream order, stopping after `k <= n` items costs exactly
/// `ceil(k / p)` fetches and never more — in particular, zero pulls
/// cost zero fetches — and asking for more than the collection holds
/// drains it whole at the cost of pulling to the end, `ceil(n / p) + 1`
/// fetches, the last one empty.
pub fn pull_first<T: Copy>(upstream: &Vec<T>, page_size: usize, k: usize) -> (r: (Vec<T>, usize))
    requires
        page_size >= 1,
        upstream@.len() < usize::MAX,
    ensures
        k <= upstream@.len() ==> r.0@ == upstream@.take(k as int),
        k > upstream@.len() ==> r.0@ == upstream@,
        k == 0 ==> r.1 == 0,
        1 <= k <= upstream@.len() ==> r.1 == ceil_div(k as int, page_size as int),
        k > upstream@.len() ==> r.1 == fetches_to_end(upstream@.len() as int, page_size as int),
{
    let ghost n = upstream@.len() as int;
    let ghost p = page_size as int;
    let mut pager: Pager<T> = match Pager::new(page_size) {
        Ok(pg) => pg,
        Err(_) => vstd::pervasive::unreached(),
    };
    let mut out: Vec<T> = Vec::new();
    let mut fetches: usize = 0;
    proof {
        assert(out@ + pager.pending() =~= upstream@.take(0));
    }
    loop
        invariant
            page_size >= 1,
            n == upstream@.len() as int,
            p == page_size as int,
            n < usize::MAX,
            pager.wf(),
            !pager.in_flight(),
            pager.error_state() is None,
            pager.limit() == page_size,
            pager.skip_offset() <= n,
            out@ + pager.pending() == upstream@.take(pager.skip_offset() as int),
            out@.len() <= k,
            fetches <= n + 1,
            pager.is_exhausted() ==> pager.skip_offset() == n && pager.pending().len() == 0
                && fetches == ceil_div(n, p) + 1 && out@.len() == n && n < k,
            !pager.is_exhausted() ==> (pager.skip_offset() == fetches * p || (pager.skip_offset()
                == n && fetches == ceil_div(n, p))),
            fetches >= 1 && !pager.is_exhausted() ==> (fetches - 1) * p < k,
        ensures
            out@.len() == k || pager.is_exhausted(),
        decreases (if pager.is_exhausted() {
            0int
        } else {
            1int
        }), n - pager.skip_offset(), pager.pending().len(),
    {
        proof {
            assert(upstream@.take(pager.skip_offset() as int).len() == pager.skip_offset() as int);
            assert(out@.len() + pager.pending().len() == pager.skip_offset());
        }
        if out.len() == k {
            break ;
        }
        let ghost pend0 = pager.pending();
        let step = pager.next();
        match step {
            Step::Item(t) => {
                proof {
                    assert(pend0 =~= seq![t] + pager.pending());
                    assert(out@.push(t) + pager.pending() =~= out@ + pend0);
                }
                out.push(t);
            },
            Step::Fetch(at, limit) => {
                let ghost f0 = fetches as int;
                let ghost s0 = pager.skip_offset() as int;
                let page = fetch_page(upstream, at, limit);
                proof {
                    lemma_ceil_div_bounds(n, p);
                    assert((f0 + 1) * p == f0 * p + p) by (nonlinear_arith);
                    if s0 == f0 * p {
                        assert(f0 <= f0 * p) by (nonlinear_arith)
                            requires
                                p >= 1,
                                f0 >= 0,
                        ;
                    }
                }
                fetches = fetches + 1;
                pager.supply_page(page);
                proof {
                    assert(out@ + pager.pending() =~= upstream@.take(
                        pager.skip_offset() as int,
                    ));
                    if s0 < n {
                        // the page was non-empty; a short or exactly-final
                        // page moves the cursor to the end of the upstream
                        if s0 + p >= n {
                            lemma_ceil_div_unique(n, p, f0 + 1);
                        }
                    } else {
                        // the page was empty: the sequence is exhausted
                        if n == 0 {
                            assert(f0 == 0) by (nonlinear_arith)
                                requires
                                    p >= 1,
                                    f0 >= 0,
                                    f0 * p == 0,
                            ;
                            assert(ceil_div(0, p) == 0) by (nonlinear_arith)
                                requires
                                    p >= 1,
                            ;
                        } else if s0 == f0 * p {
                            assert(f0 >= 1) by (nonlinear_arith)
                                requires
                                    p >= 1,
                                    f0 >= 0,
                                    f0 * p >= 1,
                            ;
                            assert((f0 - 1) * p == f0 * p - p) by (nonlinear_arith);
                            lemma_ceil_div_unique(n, p, f0);
                        }
                    }
                }
            },
            Step::End => {
                break ;
            },
            Step::Failed(_) => {
                vstd::pervasive::unreached()
            },
        }
    }
    proof {
        assert(out@.len() + pager.pending().len() == pager.skip_offset());
        let f = fetches as int;
        let s = pager.skip_offset() as int;
        if out@.len() == k {
            if k >= 1 {
                lemma_ceil_div_bounds(n, p);
                assert(k as int <= s);
                if s == f * p {
                    assert(f >= 1) by (nonlinear_arith)
                        requires
                            p >= 1,
                            f >= 0,
                            f * p >= 1,
                    ;
                } else {
                    // here s == n and f == ceil_div(n, p)
                    if f == 0 {
                        assert(false);
                    }
                }
                lemma_ceil_div_unique(k as int, p, f);
            }
            assert(out@ =~= upstream@.take(k as int));
        } else {
            // the loop ended at `End`: the sequence was drained whole
            assert(out@ =~= upstream@.take(n));
            assert(upstream@.take(n) =~= upstream@);
        }
    }
    (out, fetches)
}

/// Pull a pagination sequence all the way to its reported end.
///
/// Its contract is the exhaustion law of the engine: every upstream
/// item comes out exactly once, in upstream order, at the cost of
/// `ceil(n / p) + 1` fetches — one per non-empty page plus the empty
/// page that ends the sequence, which is a single fetch in all when the
/// collection is empty from the start.
pub fn pull_all<T: Copy>(upstream: &Vec<T>, page_size: usize) -> (r: (Vec<T>, usize))
    requires
        page_size >= 1,
        upstream@.len() < usize::MAX,
    ensures
        r.0@ == upstream@,
        r.1 == fetches_to_end(upstream@.len() as int, page_size as int),
{
    pull_first(upstream, page_size, usize::MAX)
}

} // verus!
