//! The cursor-based pagination engine: a pull-driven state machine that
//! presents a page-fetched collection endpoint as one continuous lazy
//! sequence of items.
//!
//! The machine never performs a fetch itself. `next` either hands out a
//! buffered item, asks its driver for exactly one page (`Step::Fetch`),
//! reports the end, or surfaces a terminal error. The driver answers a
//! fetch request with `supply_page` or `supply_error` and then pulls
//! again. This keeps exactly one upstream request outstanding at a time
//! and incurs no fetch beyond what the items already pulled required.

use vstd::prelude::*;

verus! {

use crate::errors::ClientError;

/// What one pull of the pagination sequence asks of its driver.
pub enum Step<T> {
    /// The next item of the sequence, in upstream order.
    Item(T),
    /// The buffer is drained: fetch one page at the given skip offset
    /// (first field) with the given limit (second field), then answer
    /// with `supply_page` or `supply_error`.
    Fetch(usize, usize),
    /// The sequence has ended permanently; no further fetch will be
    /// asked for.
    End,
    /// The fetch failed; the error is surfaced once and the sequence
    /// ends permanently.
    Failed(ClientError),
}

/// Private, single-owner state of one pagination sequence.
pub struct Pager<T> {
    /// Items pending delivery, held in reverse so the next item to
    /// deliver sits at the end.
    buffer: Vec<T>,
    /// Position of the next page: advanced by the exact number of items
    /// each fetch actually returned.
    skip: usize,
    /// The limit sent with every fetch.
    page_size: usize,
    /// Whether a fetch request is outstanding.
    fetching: bool,
    /// Whether a fetch returned an empty page, ending the sequence.
    exhausted: bool,
    /// A fetch failure not yet surfaced to the consumer.
    error: Option<ClientError>,
}

impl<T> Pager<T> {
    /// The items pending delivery, in the order they will be delivered.
    pub closed spec fn pending(self) -> Seq<T> {
        self.buffer@.reverse()
    }

    /// The skip offset the next fetch will be asked at.
    pub closed spec fn skip_offset(self) -> usize {
        self.skip
    }

    /// The limit every fetch is asked with.
    pub closed spec fn limit(self) -> usize {
        self.page_size
    }

    /// Whether a fetch request is outstanding.
    pub closed spec fn in_flight(self) -> bool {
        self.fetching
    }

    /// Whether the sequence has ended permanently.
    pub closed spec fn is_exhausted(self) -> bool {
        self.exhausted
    }

    /// The fetch failure not yet surfaced, if any.
    pub closed spec fn error_state(self) -> Option<ClientError> {
        self.error
    }

    /// Internal consistency: the page size is positive, and a fetch is
    /// only ever outstanding on a drained, live sequence.
    pub closed spec fn wf(self) -> bool {
        &&& self.page_size >= 1
        &&& (self.fetching ==> self.buffer@.len() == 0 && self.error is None && !self.exhausted)
        &&& (self.exhausted ==> self.error is None)
    }

    /// Start a pagination sequence: empty buffer, skip offset zero, not
    /// exhausted. A page size of zero is a caller error, rejected with a
    /// `Configuration` error.
    pub fn new(page_size: usize) -> (r: Result<Pager<T>, ClientError>)
        ensures
            page_size >= 1 ==> (r matches Ok(p) && p.wf() && p.pending() == Seq::<T>::empty()
                && p.skip_offset() == 0 && p.limit() == page_size && !p.in_flight()
                && !p.is_exhausted() && p.error_state() is None),
            page_size == 0 ==> (r matches Err(e) && e matches ClientError::Configuration(m) && m@
                == "page size must be at least 1"@),
    {
        if page_size == 0 {
            Err(ClientError::Configuration("page size must be at least 1".to_owned()))
        } else {
            let p = Pager {
                buffer: Vec::new(),
                skip: 0,
                page_size,
                fetching: false,
                exhausted: false,
                error: None,
            };
            proof {
                assert(p.pending() =~= Seq::<T>::empty());
            }
            Ok(p)
        }
    }

    /// Pull once. Buffered items are delivered first, in upstream order;
    /// on a drained live sequence a fetch is requested at the current
    /// skip offset with the configured limit; a pending failure is
    /// surfaced exactly once and ends the sequence; an ended sequence
    /// answers `End` forever without further fetches.
    pub fn next(&mut self) -> (s: Step<T>)
        requires
            old(self).wf(),
            !old(self).in_flight(),
        ensures
            final(self).wf(),
            final(self).limit() == old(self).limit(),
            old(self).pending().len() > 0 ==> (s matches Step::Item(t)
                && t == old(self).pending()[0]
                && final(self).pending() == old(self).pending().drop_first()
                && final(self).skip_offset() == old(self).skip_offset()
                && !final(self).in_flight()
                && final(self).is_exhausted() == old(self).is_exhausted()
                && final(self).error_state() == old(self).error_state()),
            old(self).pending().len() == 0 && old(self).error_state() is Some ==> (s matches
                Step::Failed(e)
                && Some(e) == old(self).error_state()
                && final(self).pending().len() == 0
                && !final(self).in_flight()
                && final(self).is_exhausted()
                && final(self).error_state() is None
                && final(self).skip_offset() == old(self).skip_offset()),
            old(self).pending().len() == 0 && old(self).error_state() is None && old(self).is_exhausted()
                ==> (s is End
                && final(self).pending().len() == 0
                && final(self).skip_offset() == old(self).skip_offset()
                && !final(self).in_flight()
                && final(self).is_exhausted()
                && final(self).error_state() is None),
            old(self).pending().len() == 0 && old(self).error_state() is None && !old(self).is_exhausted()
                ==> (s == Step::Fetch::<T>(old(self).skip_offset(), old(self).limit())
                && final(self).in_flight()
                && final(self).pending().len() == 0
                && final(self).skip_offset() == old(self).skip_offset()
                && !final(self).is_exhausted()
                && final(self).error_state() is None),
    {
        proof {
            assert(old(self).buffer@.len() == old(self).pending().len());
        }
        match self.buffer.pop() {
            Some(t) => {
                proof {
                    assert(t == old(self).pending()[0]);
                    assert(self.buffer@.reverse() =~= old(self).pending().drop_first());
                }
                Step::Item(t)
            },
            None => {
                match self.error.take() {
                    Some(e) => {
                        self.exhausted = true;
                        Step::Failed(e)
                    },
                    None => {
                        if self.exhausted {
                            Step::End
                        } else {
                            self.fetching = true;
                            Step::Fetch(self.skip, self.page_size)
                        }
                    },
                }
            },
        }
    }

    /// Answer an outstanding fetch with the page the server returned.
    /// The page becomes the pending items, the skip offset advances by
    /// exactly the number of items received, and an empty page ends the
    /// sequence permanently.
    pub fn supply_page(&mut self, page: Vec<T>)
        requires
            old(self).wf(),
            old(self).in_flight(),
            old(self).skip_offset() + page@.len() <= usize::MAX,
        ensures
            final(self).wf(),
            !final(self).in_flight(),
            final(self).pending() == page@,
            final(self).skip_offset() == old(self).skip_offset() + page@.len(),
            final(self).limit() == old(self).limit(),
            final(self).is_exhausted() == (page@.len() == 0),
            final(self).error_state() is None,
    {
        let ghost orig = page@;
        let mut page = page;
        let mut buf: Vec<T> = Vec::new();
        proof {
            assert(orig.take(orig.len() as int) =~= orig);
            assert(orig.skip(orig.len() as int).reverse() =~= Seq::<T>::empty());
        }
        while page.len() > 0
            invariant
                page@.len() <= orig.len(),
                page@ == orig.take(page@.len() as int),
                buf@ == orig.skip(page@.len() as int).reverse(),
            decreases page@.len(),
        {
            proof {
                let k = page@.len() as int;
                assert(orig.take(k).subrange(0, k - 1) =~= orig.take(k - 1));
                assert(orig.skip(k - 1).reverse() =~= orig.skip(k).reverse().push(orig.take(k)[k
                    - 1]));
            }
            let x = page.pop().unwrap();
            buf.push(x);
        }
        let received: usize = buf.len();
        proof {
            assert(buf@ =~= orig.reverse());
            assert(orig.reverse().len() == orig.len());
        }
        self.buffer = buf;
        if received == 0 {
            self.exhausted = true;
        } else {
            self.skip = self.skip + received;
        }
        self.fetching = false;
        proof {
            assert(self.pending() =~= orig);
        }
    }

    /// Answer an outstanding fetch with the failure that ended it. The
    /// failure is surfaced on the next pull and the sequence ends.
    pub fn supply_error(&mut self, e: ClientError)
        requires
            old(self).wf(),
            old(self).in_flight(),
        ensures
            final(self).wf(),
            !final(self).in_flight(),
            final(self).pending().len() == 0,
            final(self).skip_offset() == old(self).skip_offset(),
            final(self).limit() == old(self).limit(),
            !final(self).is_exhausted(),
            final(self).error_state() == Some(e),
    {
        self.error = Some(e);
        self.fetching = false;
    }
}

} // verus!
