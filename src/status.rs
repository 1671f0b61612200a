use vstd::prelude::*;

verus! {

/// The position of an item within the sequence it came from: whether it is
/// the first one, the last one, both (a single item), or neither.
#[derive(Copy, Clone, Debug, PartialEq, Eq, Structural)]
pub struct Status {
    first: bool,
    last: bool,
}

/// The status of the item at index `i` of a sequence of length `n`.
pub open spec fn status_at(i: int, n: int) -> (bool, bool) {
    (i == 0, i == n - 1)
}

impl Status {
    /// Whether this status marks the first item.
    pub closed spec fn first(self) -> bool {
        self.first
    }

    /// Whether this status marks the last item.
    pub closed spec fn last(self) -> bool {
        self.last
    }

    /// The two flags as a pair `(first, last)`.
    pub open spec fn flags(self) -> (bool, bool) {
        (self.first(), self.last())
    }

    pub(crate) fn from_flags(first: bool, last: bool) -> (r: Status)
        ensures
            r.first() == first,
            r.last() == last,
    {
        Status { first, last }
    }

    /// Returns `true` if this is the first item. A single item is both the
    /// first and the last one.
    pub fn is_first(&self) -> (r: bool)
        ensures
            r == self.first(),
    {
        self.first
    }

    /// Returns `true` if this is the first item and not also the last one.
    pub fn is_first_only(&self) -> (r: bool)
        ensures
            r == (self.first() && !self.last()),
    {
        self.first && !self.last
    }

    /// Returns `true` if this is the last item. A single item is both the
    /// first and the last one.
    pub fn is_last(&self) -> (r: bool)
        ensures
            r == self.last(),
    {
        self.last
    }

    /// Returns `true` if this is the last item and not also the first one.
    pub fn is_last_only(&self) -> (r: bool)
        ensures
            r == (self.last() && !self.first()),
    {
        self.last && !self.first
    }

    /// Returns `true` if this is neither the first nor the last item.
    pub fn is_in_between(&self) -> (r: bool)
        ensures
            r == (!self.first() && !self.last()),
    {
        !self.first && !self.last
    }
}

/// The statuses of a whole sequence of `n` items, where item `i` is marked
/// first exactly when `i == 0` and last exactly when `i == n - 1` (what
/// [`WithStatus::collect_vec`](crate::WithStatus::collect_vec) gives for a fresh wrapper):
/// a single item is both first and last and neither first-only nor
/// last-only; of two or more items exactly the first is marked first and
/// exactly the last is marked last; from three items on some item lies in
/// between; and no item is ever both first-only and last-only.
pub proof fn lemma_positions(statuses: Seq<Status>)
    requires
        forall|i: int| 0 <= i < statuses.len() ==> (#[trigger] statuses[i]).flags() == status_at(i, statuses.len() as int),
    ensures
        statuses.len() == 1 ==> {
            &&& statuses[0].first() && statuses[0].last()
            &&& !(statuses[0].first() && !statuses[0].last())
            &&& !(statuses[0].last() && !statuses[0].first())
        },
        statuses.len() >= 1 ==> statuses[0].first() && statuses[statuses.len() - 1].last(),
        forall|i: int, j: int| 0 <= i < statuses.len() && 0 <= j < statuses.len()
            && (#[trigger] statuses[i]).first() && (#[trigger] statuses[j]).first() ==> i == j,
        forall|i: int, j: int| 0 <= i < statuses.len() && 0 <= j < statuses.len()
            && (#[trigger] statuses[i]).last() && (#[trigger] statuses[j]).last() ==> i == j,
        statuses.len() >= 3 ==> exists|i: int| 0 <= i < statuses.len()
            && !(#[trigger] statuses[i]).first() && !statuses[i].last(),
        forall|i: int| 0 <= i < statuses.len() ==> !(
            ((#[trigger] statuses[i]).first() && !statuses[i].last())
            && (statuses[i].last() && !statuses[i].first())),
{
    if statuses.len() >= 1 {
        assert(statuses[0].flags() == status_at(0, statuses.len() as int));
        assert(statuses[statuses.len() - 1].flags() == status_at(statuses.len() - 1, statuses.len() as int));
    }
    if statuses.len() >= 3 {
        assert(statuses[1].flags() == status_at(1, statuses.len() as int));
    }
}

} // verus!
