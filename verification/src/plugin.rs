//! The plugin state: the two result channels, the registry of loaded
//! host contexts, and the pending hash log, together with the lifecycle
//! events and the single-threaded phases of one dispatch cycle.

use vstd::prelude::*;
use crate::args::ArgumentValue;
use crate::args::HashJobResult;
use crate::args::VerifyJobResult;
use crate::args::push_order_for_hash;
use crate::channel::ResultChannel;

verus! {

/// An opaque identity for one loaded host execution context.
#[derive(Clone, Copy, PartialEq, Eq, Structural, Debug, Hash)]
pub struct ContextHandle {
    pub id: u64,
}

/// `handles` with the first occurrence of `handle` removed; unchanged if
/// `handle` does not occur.
pub open spec fn removed_first(handles: Seq<ContextHandle>, handle: ContextHandle) -> Seq<
    ContextHandle,
>
    decreases handles.len(),
{
    if handles.len() == 0 {
        handles
    } else if handles[0] == handle {
        handles.drop_first()
    } else {
        seq![handles[0]] + removed_first(handles.drop_first(), handle)
    }
}

/// The plugin lifecycle object: everything the single consumer thread
/// owns. Worker threads never touch any of it; completed jobs reach it
/// only as values sent over the two result channels.
pub struct SampBcrypt {
    /// Pending hash log: hashes recorded during the current dispatch
    /// cycle, newest first, cleared unconditionally at end of cycle.
    pub hashes: Vec<String>,
    /// Completed hashing jobs not yet replayed.
    pub hash_results: ResultChannel<HashJobResult>,
    /// Completed verification jobs not yet replayed.
    pub verify_results: ResultChannel<VerifyJobResult>,
    /// Context registry: loaded host contexts, oldest-loaded first.
    pub amx_list: Vec<ContextHandle>,
}

/// One tick's batch of hash completions: the whole hash queue, in the
/// order the workers sent them.
pub open spec fn hash_batch(plugin: SampBcrypt) -> Seq<HashJobResult> {
    plugin.hash_results@
}

/// One tick's batch of verification completions: the whole verify queue,
/// in the order the workers sent them.
pub open spec fn verify_batch(plugin: SampBcrypt) -> Seq<VerifyJobResult> {
    plugin.verify_results@
}

impl SampBcrypt {
    /// No two handles for the same underlying context coexist.
    pub open spec fn wf(&self) -> bool {
        self.amx_list@.no_duplicates()
    }

    pub fn new() -> (plugin: Self)
        ensures
            plugin.hashes@ == Seq::<String>::empty(),
            plugin.hash_results@ == Seq::<HashJobResult>::empty(),
            plugin.verify_results@ == Seq::<VerifyJobResult>::empty(),
            plugin.amx_list@ == Seq::<ContextHandle>::empty(),
            plugin.wf(),
    {
        SampBcrypt {
            hashes: Vec::new(),
            hash_results: ResultChannel::new(),
            verify_results: ResultChannel::new(),
            amx_list: Vec::new(),
        }
    }

    /// System initialization: both result channels are set up empty, once,
    /// for the lifetime of the process. The registry and the pending log
    /// are untouched.
    pub fn on_load(&mut self)
        ensures
            final(self).hash_results@ == Seq::<HashJobResult>::empty(),
            final(self).verify_results@ == Seq::<VerifyJobResult>::empty(),
            final(self).hashes == old(self).hashes,
            final(self).amx_list == old(self).amx_list,
    {
        self.hash_results = ResultChannel::new();
        self.verify_results = ResultChannel::new();
    }

    /// A context finished loading: append its handle to the registry, so
    /// dispatch tries it after every context loaded before it.
    pub fn on_amx_load(&mut self, handle: ContextHandle)
        requires
            !old(self).amx_list@.contains(handle),
        ensures
            final(self).amx_list@ == old(self).amx_list@.push(handle),
            old(self).wf() ==> final(self).wf(),
            final(self).hashes == old(self).hashes,
            final(self).hash_results == old(self).hash_results,
            final(self).verify_results == old(self).verify_results,
    {
        self.amx_list.push(handle);
        proof {
            if old(self).wf() {
                assert(self.amx_list@.no_duplicates()) by {
                    let s = old(self).amx_list@;
                    assert forall|i: int, j: int|
                        0 <= i < s.push(handle).len() && 0 <= j < s.push(handle).len() && i
                            != j implies s.push(handle)[i] != s.push(handle)[j] by {
                        if i < s.len() && j < s.len() {
                            assert(s[i] != s[j]);
                        } else if i < s.len() {
                            assert(!s.contains(handle));
                            assert(s[i] != handle);
                        } else {
                            assert(!s.contains(handle));
                            assert(s[j] != handle);
                        }
                    }
                }
            }
        }
    }

    /// A context unloaded: remove its handle — the first and only
    /// occurrence — from the registry, keeping every other context in
    /// its registration order. Every unload must match a prior load, so
    /// the handle is required to be present; the caller treats a missing
    /// handle as a fatal programming-invariant violation.
    pub fn on_amx_unload(&mut self, handle: ContextHandle)
        requires
            old(self).amx_list@.contains(handle),
        ensures
            final(self).amx_list@ == removed_first(old(self).amx_list@, handle),
            old(self).wf() ==> final(self).wf() && !final(self).amx_list@.contains(handle),
            final(self).hashes == old(self).hashes,
            final(self).hash_results == old(self).hash_results,
            final(self).verify_results == old(self).verify_results,
    {
        let ghost s = self.amx_list@;
        let mut index: usize = 0;
        while index < self.amx_list.len() && self.amx_list[index] != handle
            invariant
                self.amx_list@ == s,
                s.contains(handle),
                0 <= index <= s.len(),
                forall|j: int| 0 <= j < index ==> s[j] != handle,
            decreases s.len() - index,
        {
            index = index + 1;
        }
        proof {
            if index >= s.len() {
                let w = choose|w: int| 0 <= w < s.len() && s[w] == handle;
                assert(false);
            }
            lemma_removed_first_at(s, handle, index as int);
        }
        self.amx_list.remove(index);
        proof {
            if old(self).wf() {
                let t = self.amx_list@;
                assert(t == s.remove(index as int));
                assert(t.no_duplicates()) by {
                    assert forall|i: int, j: int|
                        0 <= i < t.len() && 0 <= j < t.len() && i != j implies t[i] != t[j] by {
                        assert(t[i] == if i < index { s[i] } else { s[i + 1] });
                        assert(t[j] == if j < index { s[j] } else { s[j + 1] });
                    }
                }
                assert(!t.contains(handle)) by {
                    if t.contains(handle) {
                        let w = choose|w: int| 0 <= w < t.len() && t[w] == handle;
                        assert(t[w] == if w < index { s[w] } else { s[w + 1] });
                        assert(s[index as int] == handle);
                    }
                }
            }
        }
    }

    /// Take this tick's hash batch: every completed hashing job queued so
    /// far, in arrival order, leaving the hash channel empty. Nothing
    /// else — the verify channel, the pending log, the registry — moves.
    pub fn take_hash_results(&mut self) -> (results: Vec<HashJobResult>)
        ensures
            results@ == hash_batch(*old(self)),
            final(self).hash_results@ == Seq::<HashJobResult>::empty(),
            final(self).verify_results == old(self).verify_results,
            final(self).hashes == old(self).hashes,
            final(self).amx_list == old(self).amx_list,
    {
        self.hash_results.drain()
    }

    /// Take this tick's verify batch: every completed verification job
    /// queued so far, in arrival order, leaving the verify channel empty.
    /// The batch is a function of the verify channel alone; the hash side
    /// and the pending log are untouched.
    pub fn take_verify_results(&mut self) -> (results: Vec<VerifyJobResult>)
        ensures
            results@ == verify_batch(*old(self)),
            final(self).verify_results@ == Seq::<VerifyJobResult>::empty(),
            final(self).hash_results == old(self).hash_results,
            final(self).hashes == old(self).hashes,
            final(self).amx_list == old(self).amx_list,
    {
        self.verify_results.drain()
    }

    /// Record one computed hash at the front of the pending hash log,
    /// making it observable to callback code for the rest of this cycle.
    pub fn record_hash(&mut self, hashed_value: String)
        ensures
            final(self).hashes@ == seq![hashed_value] + old(self).hashes@,
            final(self).hash_results == old(self).hash_results,
            final(self).verify_results == old(self).verify_results,
            final(self).amx_list == old(self).amx_list,
    {
        self.hashes.insert(0, hashed_value);
        proof {
            assert(self.hashes@ =~= seq![hashed_value] + old(self).hashes@);
        }
    }

    /// Prepare one hash completion for replay: record its hash at the
    /// front of the pending log, and hand back the callback to invoke
    /// together with the exact values to push — the extra arguments in
    /// reverse declaration order, then the requester id.
    pub fn begin_hash_replay(&mut self, job: HashJobResult) -> (replay: (String, Vec<
        ArgumentValue,
    >))
        ensures
            final(self).hashes@ == seq![job.hashed_value] + old(self).hashes@,
            replay.0 == job.callback_name,
            replay.1@ == job.extra_args@.reverse().push(ArgumentValue::Primitive(job.requester_id)),
            final(self).hash_results == old(self).hash_results,
            final(self).verify_results == old(self).verify_results,
            final(self).amx_list == old(self).amx_list,
    {
        let HashJobResult { requester_id, callback_name, hashed_value, extra_args } = job;
        self.record_hash(hashed_value);
        let order = push_order_for_hash(extra_args, requester_id);
        (callback_name, order)
    }

    /// End of one dispatch cycle: clear the pending hash log,
    /// unconditionally — whatever this cycle recorded, and even if it
    /// recorded nothing, nothing in the log survives into the next cycle.
    pub fn end_tick(&mut self)
        ensures
            final(self).hashes@ == Seq::<String>::empty(),
            final(self).hash_results == old(self).hash_results,
            final(self).verify_results == old(self).verify_results,
            final(self).amx_list == old(self).amx_list,
    {
        self.hashes.clear();
    }
}

/// Removing the first occurrence of a value that sits at position
/// `index`, with no earlier occurrence, is removing position `index`.
proof fn lemma_removed_first_at(handles: Seq<ContextHandle>, handle: ContextHandle, index: int)
    requires
        0 <= index < handles.len(),
        handles[index] == handle,
        forall|j: int| 0 <= j < index ==> handles[j] != handle,
    ensures
        removed_first(handles, handle) == handles.remove(index),
    decreases index,
{
    if index == 0 {
        assert(removed_first(handles, handle) =~= handles.remove(0));
    } else {
        lemma_removed_first_at(handles.drop_first(), handle, index - 1);
        assert(seq![handles[0]] + handles.drop_first().remove(index - 1) =~= handles.remove(
            index,
        ));
    }
}

/// Independence of the two channels: what one tick's verify drain yields
/// — and the order it is processed in — is a function of the verify
/// channel alone. Two plugin states with the same verify queue have the
/// same verify batch, whatever their hash queues or pending logs hold.
pub proof fn lemma_channels_independent(a: SampBcrypt, b: SampBcrypt)
    requires
        a.verify_results@ == b.verify_results@,
    ensures
        verify_batch(a) == verify_batch(b),
{
}

} // verus!
