//! Ordered fallback: strategies are tried one after the other and the first
//! success wins.
//!
//! A chain knows how many strategies there are, how many were tried, and what
//! the first success was. The caller asks which strategy is next, runs it, and
//! records what came of it. No strategy is asked for after a success, and
//! none twice.

use vstd::prelude::*;

verus! {

/// The first outcome of `outcomes` that is a success, or `None` where none is.
pub open spec fn first_success<T>(outcomes: Seq<Option<T>>) -> Option<T>
    decreases outcomes.len(),
{
    if outcomes.len() == 0 {
        None
    } else if outcomes.first() is Some {
        outcomes.first()
    } else {
        first_success(outcomes.drop_first())
    }
}

/// What a `Fallback` stands for.
pub struct FallbackView<T> {
    /// The number of strategies.
    pub count: nat,
    /// The number of strategies tried so far.
    pub tried: nat,
    /// The first success, once there is one.
    pub found: Option<T>,
}

impl<T> FallbackView<T> {
    /// The chain over `count` strategies of which none was tried.
    pub open spec fn fresh(count: nat) -> Self {
        FallbackView { count, tried: 0, found: None }
    }

    /// The strategy to try next: the first not tried, as long as there was no
    /// success and any is left.
    pub open spec fn next(self) -> Option<nat> {
        if self.found is None && self.tried < self.count {
            Some(self.tried)
        } else {
            None
        }
    }

    /// The chain after the outcome of the next strategy was recorded. Where no
    /// strategy is due the outcome is dropped.
    pub open spec fn recorded(self, outcome: Option<T>) -> Self {
        if self.next() is Some {
            FallbackView { tried: self.tried + 1, found: outcome, ..self }
        } else {
            self
        }
    }

    /// The chain after the outcomes `outcomes` were recorded in order.
    pub open spec fn fed(self, outcomes: Seq<Option<T>>) -> Self
        decreases outcomes.len(),
    {
        if outcomes.len() == 0 {
            self
        } else {
            self.fed(outcomes.drop_last()).recorded(outcomes.last())
        }
    }
}

/// A chain of strategies with first-success-wins semantics.
pub struct Fallback<T> {
    count: usize,
    tried: usize,
    found: Option<T>,
}

impl<T> View for Fallback<T> {
    type V = FallbackView<T>;

    closed spec fn view(&self) -> FallbackView<T> {
        FallbackView { count: self.count as nat, tried: self.tried as nat, found: self.found }
    }
}

impl<T> Fallback<T> {
    /// A chain over `count` strategies, numbered from 0 in the order in which
    /// they are to be tried.
    pub fn new(count: usize) -> (chain: Self)
        ensures
            chain@ == FallbackView::<T>::fresh(count as nat),
    {
        Fallback { count, tried: 0, found: None }
    }

    /// The number of the strategy to try next, or `None` once one succeeded or
    /// all failed.
    pub fn next(&self) -> (due: Option<usize>)
        ensures
            match due {
                Some(i) => self@.next() == Some(i as nat),
                None => self@.next() is None,
            },
    {
        if self.found.is_none() && self.tried < self.count {
            Some(self.tried)
        } else {
            None
        }
    }

    /// Records the outcome of the strategy that `next` named.
    pub fn record(&mut self, outcome: Option<T>)
        ensures
            final(self)@ == old(self)@.recorded(outcome),
    {
        if self.found.is_none() && self.tried < self.count {
            self.tried = self.tried + 1;
            self.found = outcome;
        }
    }

    /// The first success, or `None` where there was none.
    pub fn into_result(self) -> (found: Option<T>)
        ensures
            found == self@.found,
    {
        self.found
    }
}

/// A chain that no strategy is due in stays as it is, whatever is recorded.
pub proof fn lemma_fed_when_done<T>(chain: FallbackView<T>, outcomes: Seq<Option<T>>)
    requires
        chain.next() is None,
    ensures
        chain.fed(outcomes) == chain,
    decreases outcomes.len(),
{
    if outcomes.len() > 0 {
        lemma_fed_when_done(chain, outcomes.drop_last());
    }
}

/// Recording a first outcome and then others is recording them all.
pub proof fn lemma_fed_first<T>(chain: FallbackView<T>, outcomes: Seq<Option<T>>)
    requires
        outcomes.len() > 0,
    ensures
        chain.fed(outcomes) == chain.recorded(outcomes.first()).fed(outcomes.drop_first()),
    decreases outcomes.len(),
{
    if outcomes.len() == 1 {
        assert(outcomes.drop_last() =~= Seq::empty());
        assert(outcomes.drop_first() =~= Seq::empty());
        assert(chain.fed(outcomes.drop_last()) == chain);
    } else {
        let front = outcomes.drop_last();
        lemma_fed_first(chain, front);
        assert(front.first() == outcomes.first());
        assert(front.drop_first() =~= outcomes.drop_first().drop_last());
        assert(outcomes.drop_first().last() == outcomes.last());
    }
}

/// First success wins: after the outcomes of the strategies were recorded in
/// order, the result is the first success among the outcomes of the
/// strategies that exist, whatever was recorded after it.
pub proof fn lemma_first_success_wins<T>(count: nat, outcomes: Seq<Option<T>>)
    ensures
        FallbackView::<T>::fresh(count).fed(outcomes).found == first_success(
            if outcomes.len() <= count {
                outcomes
            } else {
                outcomes.take(count as int)
            },
        ),
{
    lemma_wins_from(FallbackView::<T>::fresh(count), outcomes);
}

/// The result of a chain without a success yet, after further outcomes.
proof fn lemma_wins_from<T>(chain: FallbackView<T>, outcomes: Seq<Option<T>>)
    requires
        chain.found is None,
        chain.tried <= chain.count,
    ensures
        chain.fed(outcomes).found == first_success(
            if outcomes.len() <= chain.count - chain.tried {
                outcomes
            } else {
                outcomes.take(chain.count - chain.tried)
            },
        ),
    decreases outcomes.len(),
{
    let left = chain.count - chain.tried;
    let counted = if outcomes.len() <= left {
        outcomes
    } else {
        outcomes.take(left)
    };
    if outcomes.len() == 0 {
    } else if left == 0 {
        lemma_fed_when_done(chain, outcomes);
        assert(counted =~= Seq::empty());
    } else {
        lemma_fed_first(chain, outcomes);
        let step = chain.recorded(outcomes.first());
        let rest = outcomes.drop_first();
        assert(counted.first() == outcomes.first());
        if outcomes.first() is Some {
            lemma_fed_when_done(step, rest);
        } else {
            lemma_wins_from(step, rest);
            let counted_rest = if rest.len() <= left - 1 {
                rest
            } else {
                rest.take(left - 1)
            };
            assert(counted.drop_first() =~= counted_rest);
        }
    }
}

} // verus!
