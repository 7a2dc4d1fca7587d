//! The completion barrier: the insert units of an ingestion report here as
//! they finish, in any order, and the query may start only once every unit
//! has reported; a failure cancels nothing.
use vstd::prelude::*;

verus! {

/// The first failure among outcomes, in the order they were reported, or
/// success where there is none.
pub open spec fn first_failure<E>(outcomes: Seq<Result<(), E>>) -> Result<(), E>
    decreases outcomes.len(),
{
    if outcomes.len() == 0 {
        Ok(())
    } else if first_failure(outcomes.drop_last()) is Err {
        first_failure(outcomes.drop_last())
    } else {
        outcomes.last()
    }
}

/// Collects the outcomes of a known number of units.
pub struct CompletionBarrier<E> {
    expected: usize,
    finished: usize,
    failure: Option<E>,
    outcomes: Ghost<Seq<Result<(), E>>>,
}

impl<E> CompletionBarrier<E> {
    /// The number of units the barrier waits for.
    pub closed spec fn expected(&self) -> nat {
        self.expected as nat
    }

    /// The outcomes reported so far, in the order they came.
    pub closed spec fn outcomes(&self) -> Seq<Result<(), E>> {
        self.outcomes@
    }

    pub closed spec fn wf(&self) -> bool {
        &&& self.finished == self.outcomes@.len()
        &&& self.finished <= self.expected
        &&& (self.failure is None <==> first_failure(self.outcomes@) is Ok)
        &&& (self.failure matches Some(e) ==> first_failure(self.outcomes@) == Err::<(), E>(e))
    }

    /// A barrier for `expected` units, none of them finished.
    pub fn new(expected: usize) -> (b: Self)
        ensures
            b.wf(),
            b.expected() == expected,
            b.outcomes() == Seq::<Result<(), E>>::empty(),
    {
        CompletionBarrier { expected, finished: 0, failure: None, outcomes: Ghost(Seq::empty()) }
    }

    /// Records the outcome of one more finished unit.
    pub fn record(&mut self, outcome: Result<(), E>)
        requires
            old(self).wf(),
            old(self).outcomes().len() < old(self).expected(),
        ensures
            final(self).wf(),
            final(self).expected() == old(self).expected(),
            final(self).outcomes() == old(self).outcomes().push(outcome),
    {
        let ghost before = self.outcomes@;
        proof {
            assert(before.push(outcome).drop_last() =~= before);
        }
        if self.failure.is_none() {
            match outcome {
                Err(e) => {
                    self.failure = Some(e);
                },
                Ok(()) => {},
            }
        }
        self.finished = self.finished + 1;
        self.outcomes = Ghost(before.push(outcome));
        proof {
            let after = before.push(outcome);
            assert(after.last() == outcome);
            assert(first_failure(after) == if first_failure(before) is Err {
                first_failure(before)
            } else {
                outcome
            });
        }
    }

    /// Whether every unit has reported.
    pub fn is_drained(&self) -> (r: bool)
        requires
            self.wf(),
        ensures
            r == (self.outcomes().len() == self.expected()),
    {
        self.finished == self.expected
    }

    /// Once every unit has reported: the first failure reported, or success
    /// where every unit succeeded.
    pub fn finish(self) -> (r: Result<(), E>)
        requires
            self.wf(),
            self.outcomes().len() == self.expected(),
        ensures
            r is Ok <==> first_failure(self.outcomes()) is Ok,
            r matches Err(e) ==> first_failure(self.outcomes()) == Err::<(), E>(e),
    {
        match self.failure {
            Some(e) => Err(e),
            None => Ok(()),
        }
    }
}

/// No silent success: where any unit failed, the barrier reports a failure,
/// and it reports success only where every unit succeeded.
pub proof fn lemma_failure_is_reported<E>(outcomes: Seq<Result<(), E>>)
    ensures
        first_failure(outcomes) is Ok <==> forall|i: int| 0 <= i < outcomes.len() ==> #[trigger] outcomes[i] is Ok,
    decreases outcomes.len(),
{
    if outcomes.len() > 0 {
        let rest = outcomes.drop_last();
        lemma_failure_is_reported(rest);
        if first_failure(outcomes) is Ok {
            assert forall|i: int| 0 <= i < outcomes.len() implies #[trigger] outcomes[i] is Ok by {
                if i < rest.len() {
                    assert(rest[i] == outcomes[i]);
                }
            }
        } else if forall|i: int| 0 <= i < outcomes.len() ==> #[trigger] outcomes[i] is Ok {
            assert forall|i: int| 0 <= i < rest.len() implies #[trigger] rest[i] is Ok by {
                assert(rest[i] == outcomes[i]);
            }
            assert(outcomes[outcomes.len() - 1] is Ok);
        }
    }
}

} // verus!
