use vstd::prelude::*;
use vstd::std_specs::iter::IteratorSpec;

use crate::status::{status_at, Status};

verus! {

/// The items still to come from a wrapper whose look-ahead slot is `slot`
/// and whose underlying iterator has `rest` left.
///
/// An empty slot (`None`) has not looked ahead yet; `Some(None)` records that
/// the underlying iterator is exhausted; `Some(Some(x))` holds the next item.
pub open spec fn upcoming<T>(slot: Option<Option<T>>, rest: Seq<T>) -> Seq<T> {
    match slot {
        None => rest,
        Some(None) => Seq::empty(),
        Some(Some(x)) => seq![x] + rest,
    }
}

/// A size hint `(lower, upper)` raised by one item: the lower bound
/// saturates, and an upper bound that would overflow becomes unknown.
pub fn hint_plus_one(hint: (usize, Option<usize>)) -> (r: (usize, Option<usize>))
    ensures
        r.0 == if hint.0 == usize::MAX { usize::MAX as int } else { hint.0 + 1 },
        r.1 == match hint.1 {
            Some(h) => if h == usize::MAX { None } else { Some((h + 1) as usize) },
            None => None,
        },
{
    let (lo, hi) = hint;
    let lo = lo.saturating_add(1);
    let hi = match hi {
        Some(h) => h.checked_add(1),
        None => None,
    };
    (lo, hi)
}

/// Relies on `Iterator::size_hint`, for the bounds that `it` reports on its
/// remaining length; the documentation promises nothing of them.
#[verifier::external_body]
fn inner_size_hint<I: Iterator>(it: &I) -> (usize, Option<usize>) {
    it.size_hint()
}

/// A remaining count raised by one item, saturating at `usize::MAX`.
pub fn len_plus_one(n: usize) -> (r: usize)
    ensures
        r == if n == usize::MAX { usize::MAX as int } else { n + 1 },
{
    n.saturating_add(1)
}

/// Relies on `ExactSizeIterator::len`, for the count that `it` reports of
/// its remaining items; std does not guarantee that count, so nothing is
/// promised of it.
#[verifier::external_body]
fn exact_len<I: ExactSizeIterator>(it: &I) -> usize {
    it.len()
}

/// Iterator wrapper that pairs each item with its [`Status`]. See
/// [`IterStatusExt::with_status`].
pub struct WithStatus<I: Iterator> {
    iter: I,
    peeked: Option<Option<I::Item>>,
    first: bool,
}

impl<I: Iterator> WithStatus<I> {
    /// The wrapped iterator.
    pub closed spec fn inner(self) -> I {
        self.iter
    }

    /// The look-ahead slot.
    pub closed spec fn slot(self) -> Option<Option<I::Item>> {
        self.peeked
    }

    /// `true` until the first call to `next`.
    pub closed spec fn first_pending(self) -> bool {
        self.first
    }

    /// A bound on the number of calls to `next` that still return an item,
    /// for iterators that report a termination measure.
    pub closed spec fn measure(self) -> nat {
        let d = match self.iter.decrease() {
            Some(n) => n,
            None => 0,
        };
        match self.peeked {
            None => d + 1,
            Some(None) => 0,
            Some(Some(_)) => d + 2,
        }
    }

    fn new(iter: I) -> (r: Self)
        ensures
            r.inner() == iter,
            r.slot() is None,
            r.first_pending(),
    {
        WithStatus { iter, peeked: None, first: true }
    }

    /// Returns the next item paired with its status, or `None` once the
    /// underlying iterator is exhausted, and on every call after that.
    ///
    /// The item after the returned one is pulled from the underlying iterator
    /// before this returns, so that the status can tell whether it is the last.
    pub fn next(&mut self) -> (r: Option<(I::Item, Status)>)
        ensures
            final(self).inner().obeys_prophetic_iter_laws() == old(self).inner().obeys_prophetic_iter_laws(),
            old(self).inner().obeys_prophetic_iter_laws() ==> (final(self).inner().decrease() is Some
                <==> old(self).inner().decrease() is Some),
            !final(self).first_pending(),
            old(self).slot() == Some(None::<I::Item>) ==> r is None && final(self).slot() == Some(None::<I::Item>),
            r is None ==> final(self).slot() == Some(None::<I::Item>),
            r is Some ==> final(self).slot() is Some,
            old(self).inner().obeys_prophetic_iter_laws() ==> ({
                let before = upcoming(old(self).slot(), old(self).inner().remaining());
                let after = upcoming(final(self).slot(), final(self).inner().remaining());
                if before.len() > 0 {
                    &&& r matches Some((x, st))
                    &&& x == before[0]
                    &&& st.first() == old(self).first_pending()
                    &&& st.last() == (before.len() == 1)
                    &&& after == before.drop_first()
                    &&& final(self).slot() == if before.len() >= 2 {
                        Some(Some(before[1]))
                    } else {
                        Some(None)
                    }
                    &&& old(self).inner().decrease() is Some ==> final(self).measure() < old(self).measure()
                } else {
                    &&& r is None
                    &&& after.len() == 0
                }
            }),
    {
        let item = match self.peeked.take() {
            Some(v) => v,
            None => self.iter.next(),
        };
        let first = self.first;
        self.first = false;
        match item {
            Some(x) => {
                let ahead = self.iter.next();
                let last = ahead.is_none();
                self.peeked = Some(ahead);
                Some((x, Status::from_flags(first, last)))
            },
            None => {
                self.peeked = Some(None);
                None
            },
        }
    }

    /// Bounds on the number of items still to come, as the underlying
    /// iterator reports them, counting the item held in the look-ahead slot.
    pub fn size_hint(&self) -> (r: (usize, Option<usize>))
        ensures
            self.slot() == Some(None::<I::Item>) ==> r == (0usize, Some(0usize)),
            self.slot() matches Some(Some(_)) ==> r.0 >= 1 && (r.1 matches Some(h) ==> h >= 1),
    {
        match &self.peeked {
            None => inner_size_hint(&self.iter),
            Some(None) => (0, Some(0)),
            Some(Some(_)) => hint_plus_one(inner_size_hint(&self.iter)),
        }
    }

    /// The number of items still to come, as the underlying iterator reports
    /// its own, counting the item held in the look-ahead slot.
    pub fn len(&self) -> (r: usize)
        where
            I: ExactSizeIterator,
        ensures
            self.slot() == Some(None::<I::Item>) ==> r == 0,
            self.slot() matches Some(Some(_)) ==> r >= 1,
    {
        match &self.peeked {
            None => exact_len(&self.iter),
            Some(None) => 0,
            Some(Some(_)) => len_plus_one(exact_len(&self.iter)),
        }
    }

    /// Drains the wrapper and returns every remaining item paired with its
    /// status, in order.
    pub fn collect_vec(self) -> (r: Vec<(I::Item, Status)>)
        requires
            self.inner().obeys_prophetic_iter_laws(),
            self.inner().decrease() is Some,
        ensures
            ({
                let s = upcoming(self.slot(), self.inner().remaining());
                &&& r@.len() == s.len()
                &&& forall|i: int| 0 <= i < s.len() ==> {
                    &&& (#[trigger] r@[i]).0 == s[i]
                    &&& r@[i].1.first() == (i == 0 && self.first_pending())
                    &&& r@[i].1.last() == (i == s.len() - 1)
                }
                &&& self.first_pending() ==> forall|i: int| 0 <= i < s.len()
                    ==> (#[trigger] r@[i]).1.flags() == status_at(i, s.len() as int)
            }),
    {
        let ghost s = upcoming(self.slot(), self.inner().remaining());
        let mut it = self;
        let mut out: Vec<(I::Item, Status)> = Vec::new();
        loop
            invariant
                it.inner().obeys_prophetic_iter_laws(),
                it.inner().decrease() is Some,
                s == upcoming(self.slot(), self.inner().remaining()),
                out@.len() <= s.len(),
                upcoming(it.slot(), it.inner().remaining()) == s.skip(out@.len() as int),
                it.first_pending() == (out@.len() == 0 && self.first_pending()),
                forall|i: int| 0 <= i < out@.len() ==> {
                    &&& (#[trigger] out@[i]).0 == s[i]
                    &&& out@[i].1.first() == (i == 0 && self.first_pending())
                    &&& out@[i].1.last() == (i == s.len() - 1)
                },
            decreases it.measure(),
        {
            match it.next() {
                Some(p) => {
                    out.push(p);
                },
                None => {
                    return out;
                },
            }
        }
    }
}

/// Adds [`with_status`](IterStatusExt::with_status) to every iterator.
pub trait IterStatusExt: Iterator + Sized {
    /// Wraps this iterator so that each item comes paired with a [`Status`]
    /// telling whether it is the first and/or the last one.
    ///
    /// Nothing is pulled from this iterator until the wrapper's first `next`;
    /// from then on the wrapper pulls one item ahead of the one it returns.
    fn with_status(self) -> (r: WithStatus<Self>)
        ensures
            r.inner() == self,
            r.slot() is None,
            r.first_pending(),
    ;
}

impl<I: Iterator> IterStatusExt for I {
    fn with_status(self) -> (r: WithStatus<Self>) {
        WithStatus::new(self)
    }
}

} // verus!
