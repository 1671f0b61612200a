use vstd::prelude::*;

verus! {

/// Runs an action every time except the first.
///
/// A gate starts out suppressing; its first call to
/// [`skip_first`](SkipFirst::skip_first) switches it, for good, to letting
/// every later action through. Each gate keeps its own state.
pub struct SkipFirst {
    first: bool,
}

/// Whether a gate that is still suppressing (`suppressing`) lets the action
/// of its next call run.
pub open spec fn lets_through(suppressing: bool) -> bool {
    !suppressing
}

/// A model of a sequence of calls: the actions that run when a gate in
/// state `suppressing` is called once with each of `actions`, in order.
/// One step takes the two facts that the contract of
/// [`SkipFirst::skip_first`] states of one call: the action runs when
/// [`lets_through`] holds of the state, and the state after it is `false`.
pub open spec fn run_actions<A>(suppressing: bool, actions: Seq<A>) -> Seq<A>
    decreases actions.len(),
{
    if actions.len() == 0 {
        Seq::empty()
    } else {
        let head = if lets_through(suppressing) {
            seq![actions[0]]
        } else {
            Seq::empty()
        };
        head + run_actions(false, actions.drop_first())
    }
}

impl SkipFirst {
    /// `true` while the next call will be suppressed.
    pub closed spec fn suppressing(self) -> bool {
        self.first
    }

    /// Creates a gate whose next call is suppressed.
    pub fn new() -> (r: SkipFirst)
        ensures
            r.suppressing(),
    {
        SkipFirst { first: true }
    }

    /// Calls `f`, except the first time this method is called on this gate.
    pub fn skip_first(&mut self, f: impl FnOnce())
        requires
            lets_through(old(self).suppressing()) ==> f.requires(()),
        ensures
            !final(self).suppressing(),
            lets_through(old(self).suppressing()) ==> f.ensures((), ()),
    {
        if self.first {
            self.first = false;
        } else {
            f();
        }
    }
}

/// In the model of [`run_actions`]: a gate that has not been called yet
/// runs every action but the first, in order; one that has been called
/// runs them all.
pub proof fn lemma_run_all_but_first<A>(suppressing: bool, actions: Seq<A>)
    ensures
        suppressing && actions.len() > 0 ==> run_actions(suppressing, actions) == actions.drop_first(),
        !suppressing ==> run_actions(suppressing, actions) == actions,
        actions.len() == 0 ==> run_actions(suppressing, actions) == actions,
    decreases actions.len(),
{
    if actions.len() > 0 {
        lemma_run_all_but_first(false, actions.drop_first());
        assert(seq![actions[0]] + actions.drop_first() =~= actions);
        assert(Seq::<A>::empty() + actions.drop_first() =~= actions.drop_first());
    }
}

} // verus!
