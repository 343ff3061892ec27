//! The per-job dispatch walk: each completed job is replayed by trying
//! the named callback in every registered context, in registration
//! order, stopping at the first context that services it. Running out of
//! contexts discards the job — dispatch exhaustion is logged by the
//! caller and is never fatal to the rest of the cycle.

use vstd::prelude::*;
use crate::plugin::ContextHandle;

verus! {

/// The contexts a job's walk attempts, given the registry in
/// registration order and the outcome each attempted context would
/// report: every context up to and including the first success, or every
/// registered context if none succeeds.
pub open spec fn attempts(contexts: Seq<ContextHandle>, outcomes: Seq<bool>) -> Seq<ContextHandle>
    decreases contexts.len(),
{
    if contexts.len() == 0 || outcomes.len() == 0 {
        Seq::empty()
    } else if outcomes[0] {
        seq![contexts[0]]
    } else {
        seq![contexts[0]] + attempts(contexts.drop_first(), outcomes.drop_first())
    }
}

/// Whether the walk ends with some context servicing the callback.
pub open spec fn dispatch_succeeds(contexts: Seq<ContextHandle>, outcomes: Seq<bool>) -> bool
    decreases contexts.len(),
{
    if contexts.len() == 0 || outcomes.len() == 0 {
        false
    } else if outcomes[0] {
        true
    } else {
        dispatch_succeeds(contexts.drop_first(), outcomes.drop_first())
    }
}

/// One job's walk through the context registry. The consumer thread asks
/// `next_context` which context to try, performs the invocation in the
/// host, and reports back through `record_outcome`; the walk hands out
/// contexts in registration order and stops at the first success.
pub struct ContextTrial {
    /// position in the registry of the next context to attempt
    pub next_index: usize,
    /// whether an attempted context has serviced the callback
    pub succeeded: bool,
    /// the outcome of every attempt made so far, in order
    pub outcomes: Ghost<Seq<bool>>,
}

impl ContextTrial {
    /// The walk only ever moves forward one recorded outcome at a time,
    /// and only until the first success.
    pub open spec fn wf(&self) -> bool {
        &&& self.next_index == self.outcomes@.len()
        &&& (self.succeeded <==> self.outcomes@.len() > 0 && self.outcomes@.last())
        &&& (forall|i: int| 0 <= i < self.outcomes@.len() - 1 ==> !self.outcomes@[i])
    }

    /// A fresh walk for one job: nothing attempted, nothing succeeded.
    pub fn new() -> (trial: Self)
        ensures
            trial.wf(),
            trial.outcomes@ == Seq::<bool>::empty(),
            trial.next_index == 0,
            !trial.succeeded,
    {
        ContextTrial { next_index: 0, succeeded: false, outcomes: Ghost(Seq::empty()) }
    }

    /// The context to attempt next: the first not yet attempted, in
    /// registration order — or none, once a context has serviced the
    /// callback or every registered context has been attempted.
    pub fn next_context(&self, contexts: &Vec<ContextHandle>) -> (next: Option<ContextHandle>)
        ensures
            next is Some <==> !self.succeeded && self.next_index < contexts@.len(),
            next is Some ==> next == Some(contexts@[self.next_index as int]),
    {
        if !self.succeeded && self.next_index < contexts.len() {
            Some(contexts[self.next_index])
        } else {
            None
        }
    }

    /// Record whether the context that `next_context` handed out
    /// serviced the callback. A failed push, a missing public, and a
    /// failed execution all count the same way: the attempt failed and
    /// the walk moves to the next context.
    pub fn record_outcome(&mut self, invoked: bool)
        requires
            !old(self).succeeded,
            old(self).next_index < usize::MAX,
        ensures
            final(self).next_index == old(self).next_index + 1,
            final(self).succeeded == invoked,
            final(self).outcomes@ == old(self).outcomes@.push(invoked),
            old(self).wf() ==> final(self).wf(),
    {
        self.next_index = self.next_index + 1;
        self.succeeded = invoked;
        proof {
            self.outcomes@ = self.outcomes@.push(invoked);
        }
    }
}

/// A finished or in-progress walk matches the model: a well-formed
/// trial's recorded outcomes determine that exactly the first
/// `outcomes` many contexts were attempted, in registration order, and
/// whether the job was serviced.
pub proof fn lemma_trial_matches_model(trial: ContextTrial, contexts: Seq<ContextHandle>)
    requires
        trial.wf(),
        trial.outcomes@.len() <= contexts.len(),
    ensures
        attempts(contexts, trial.outcomes@) == contexts.take(trial.outcomes@.len() as int),
        dispatch_succeeds(contexts, trial.outcomes@) == trial.succeeded,
{
    lemma_walk_model(contexts, trial.outcomes@);
}

/// The walk model on a stop-at-first-success outcome sequence: the
/// attempted contexts are exactly the first `outcomes.len()`, and the
/// walk succeeds exactly when the last recorded outcome is a success.
proof fn lemma_walk_model(contexts: Seq<ContextHandle>, outcomes: Seq<bool>)
    requires
        outcomes.len() <= contexts.len(),
        forall|i: int| 0 <= i < outcomes.len() - 1 ==> !outcomes[i],
    ensures
        attempts(contexts, outcomes) == contexts.take(outcomes.len() as int),
        dispatch_succeeds(contexts, outcomes) == (outcomes.len() > 0 && outcomes.last()),
    decreases outcomes.len(),
{
    if outcomes.len() == 0 {
        assert(attempts(contexts, outcomes) =~= contexts.take(0));
    } else if outcomes[0] {
        assert(outcomes.len() == 1);
        assert(attempts(contexts, outcomes) =~= contexts.take(1));
    } else {
        lemma_walk_model(contexts.drop_first(), outcomes.drop_first());
        assert(seq![contexts[0]] + contexts.drop_first().take(outcomes.len() - 1) =~= contexts.take(
            outcomes.len() as int,
        ));
        if outcomes.len() > 1 {
            assert(outcomes.drop_first().last() == outcomes.last());
        }
    }
}

/// First success wins: when every context before position `k` fails the
/// attempt and the context at `k` services the callback, the walk
/// attempts exactly the first `k + 1` contexts, in registration order,
/// and the job is serviced; no context after `k` is ever attempted (in a
/// registry without duplicate handles, none of them appears among the
/// attempts).
pub proof fn lemma_first_success_wins(contexts: Seq<ContextHandle>, outcomes: Seq<bool>, k: int)
    requires
        0 <= k < contexts.len(),
        k < outcomes.len(),
        forall|i: int| 0 <= i < k ==> !outcomes[i],
        outcomes[k],
    ensures
        attempts(contexts, outcomes) == contexts.take(k + 1),
        dispatch_succeeds(contexts, outcomes),
        contexts.no_duplicates() ==> forall|j: int|
            k < j < contexts.len() ==> !attempts(contexts, outcomes).contains(contexts[j]),
    decreases k,
{
    if k == 0 {
        assert(attempts(contexts, outcomes) =~= contexts.take(1));
    } else {
        lemma_first_success_wins(contexts.drop_first(), outcomes.drop_first(), k - 1);
        assert(seq![contexts[0]] + contexts.drop_first().take(k) =~= contexts.take(k + 1));
    }
    if contexts.no_duplicates() {
        assert forall|j: int|
            k < j < contexts.len() implies !attempts(contexts, outcomes).contains(
            contexts[j],
        ) by {
            if attempts(contexts, outcomes).contains(contexts[j]) {
                let w = choose|w: int|
                    0 <= w < contexts.take(k + 1).len() && #[trigger] contexts.take(k + 1)[w]
                        == contexts[j];
                assert(contexts[w] == contexts[j]);
            }
        }
    }
}

/// Dispatch exhaustion is non-fatal and exhaustive: when no context
/// services the callback, the walk attempts every registered context, in
/// registration order, and ends without success; the caller then logs
/// the failure once and discards the job, and the walk for the next job
/// starts fresh, unaffected.
pub proof fn lemma_exhaustion_attempts_all(contexts: Seq<ContextHandle>, outcomes: Seq<bool>)
    requires
        outcomes.len() >= contexts.len(),
        forall|i: int| 0 <= i < outcomes.len() ==> !outcomes[i],
    ensures
        attempts(contexts, outcomes) == contexts,
        !dispatch_succeeds(contexts, outcomes),
    decreases contexts.len(),
{
    if contexts.len() == 0 {
        assert(attempts(contexts, outcomes) =~= contexts);
    } else {
        lemma_exhaustion_attempts_all(contexts.drop_first(), outcomes.drop_first());
        assert(seq![contexts[0]] + contexts.drop_first() =~= contexts);
    }
}

} // verus!
