//! The result channel: a one-directional queue that carries completed
//! jobs from worker threads to the single consumer thread. Producers
//! append; the consumer takes the whole queue at once, without blocking,
//! on its dispatch tick.

use vstd::prelude::*;

verus! {

/// One result channel. Its view is the sequence of queued results,
/// oldest first — exactly what the next `drain` will yield.
pub struct ResultChannel<T> {
    queued: Vec<T>,
}

impl<T> View for ResultChannel<T> {
    type V = Seq<T>;

    closed spec fn view(&self) -> Seq<T> {
        self.queued@
    }
}

impl<T> ResultChannel<T> {
    pub fn new() -> (channel: Self)
        ensures
            channel@ == Seq::<T>::empty(),
    {
        ResultChannel { queued: Vec::new() }
    }

    /// Queue one completed result behind everything already queued.
    /// Sending never blocks and never drops a result.
    pub fn send(&mut self, result: T)
        ensures
            final(self)@ == old(self)@.push(result),
    {
        self.queued.push(result);
    }

    /// Remove and return every queued result, oldest first, leaving the
    /// channel empty. With nothing pending this returns at once with an
    /// empty vector; it never blocks.
    pub fn drain(&mut self) -> (results: Vec<T>)
        ensures
            results@ == old(self)@,
            final(self)@ == Seq::<T>::empty(),
    {
        let mut results: Vec<T> = Vec::new();
        core::mem::swap(&mut results, &mut self.queued);
        results
    }

    pub fn len(&self) -> (n: usize)
        ensures
            n == self@.len(),
    {
        self.queued.len()
    }
}

/// The queue contents after a run of sends: each send appends one result
/// behind what was queued before it.
pub open spec fn queue_after_sends<T>(start: Seq<T>, sent: Seq<T>) -> Seq<T>
    decreases sent.len(),
{
    if sent.len() == 0 {
        start
    } else {
        queue_after_sends(start.push(sent[0]), sent.drop_first())
    }
}

/// Channel draining is exhaustive: a run of sends leaves exactly the sent
/// results queued, in send order, behind whatever was queued before. One
/// `drain` returns the whole queue, so after N sends into a quiet channel
/// it yields exactly those N results, in the order they were sent.
pub proof fn lemma_drain_is_exhaustive<T>(start: Seq<T>, sent: Seq<T>)
    ensures
        queue_after_sends(start, sent) == start + sent,
    decreases sent.len(),
{
    if sent.len() == 0 {
        assert(queue_after_sends(start, sent) =~= start + sent);
    } else {
        lemma_drain_is_exhaustive(start.push(sent[0]), sent.drop_first());
        assert(start.push(sent[0]) + sent.drop_first() =~= start + sent);
    }
}

} // verus!
