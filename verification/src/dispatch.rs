use vstd::prelude::*;
use std::collections::HashMap;
use std::collections::VecDeque;
use crate::envelope::{ToolArguments, ToolArgumentValues, HostResult, envelope_of};
use crate::error::{ErrorKind, Report};

verus! {

broadcast use {
    vstd::std_specs::hash::group_hash_axioms,
    vstd::std_specs::vecdeque::group_vec_dequeue_axioms,
};

/// The dispatch state as mathematics: the commands not yet handed out, oldest
/// first; the result channel of every command that still awaits its result,
/// by identifier; and the change counter that waiters watch.
pub struct DispatchModel<C> {
    pub queue: Seq<ToolArguments>,
    pub pending: Map<u128, C>,
    pub version: u64,
}

/// The counter value that follows `version`. It wraps round: a waiter tests
/// for a change, never for an order.
pub open spec fn next_version(version: u64) -> u64 {
    if version == u64::MAX {
        0
    } else {
        (version + 1) as u64
    }
}

impl<C> DispatchModel<C> {
    /// The state of a process that has just started.
    pub open spec fn empty() -> Self {
        DispatchModel { queue: Seq::empty(), pending: Map::empty(), version: 0 }
    }

    /// The state after the command `args` was enqueued under `id` with the
    /// result channel `channel`.
    pub open spec fn enqueue(self, args: ToolArgumentValues, id: u128, channel: C) -> Self {
        DispatchModel {
            queue: self.queue.push(envelope_of(args, id)),
            pending: self.pending.insert(id, channel),
            version: next_version(self.version),
        }
    }

    /// The command that the next dequeue hands out, if there is one.
    pub open spec fn head(self) -> Option<ToolArguments> {
        if self.queue.len() > 0 {
            Some(self.queue[0])
        } else {
            None
        }
    }

    /// The state after a dequeue.
    pub open spec fn dequeue(self) -> Self {
        if self.queue.len() > 0 {
            DispatchModel { queue: self.queue.subrange(1, self.queue.len() as int), ..self }
        } else {
            self
        }
    }

    /// The state after `n` dequeues.
    pub open spec fn dequeue_many(self, n: nat) -> Self
        decreases n,
    {
        if n == 0 {
            self
        } else {
            self.dequeue().dequeue_many((n - 1) as nat)
        }
    }

    /// Whether a result for `id` is still awaited.
    pub open spec fn is_pending(self, id: u128) -> bool {
        self.pending.contains_key(id)
    }

    /// The state after the entry of `id` left the pending map, by delivery or
    /// because the waiting side gave up.
    pub open spec fn forget(self, id: u128) -> Self {
        DispatchModel { pending: self.pending.remove(id), ..self }
    }

    /// What a completion of `id` with `result` delivers: the result, to the
    /// channel that is pending under `id`; nothing where none is.
    pub open spec fn delivery(self, id: u128, result: HostResult) -> Option<Delivery<C>> {
        if self.is_pending(id) {
            Some(Delivery { channel: self.pending[id], result })
        } else {
            None
        }
    }

    /// Whether `id` is the identifier of a command in the queue.
    pub open spec fn is_queued(self, id: u128) -> bool {
        exists|i: int| 0 <= i < self.queue.len() && #[trigger] self.queue[i].id == Some(id)
    }

    /// Every queued command has an identifier, and no two have the same.
    pub open spec fn distinct_identifiers(self) -> bool {
        &&& forall|i: int| 0 <= i < self.queue.len() ==> (#[trigger] self.queue[i]).id.is_some()
        &&& forall|i: int, j: int|
            0 <= i < j < self.queue.len() ==> (#[trigger] self.queue[i]).id != (
            #[trigger] self.queue[j]).id
    }
}

/// A result on its way to the invocation that waits for it: the channel that
/// the invocation registered, and what to send on it.
#[derive(Debug)]
pub struct Delivery<C> {
    pub channel: C,
    pub result: HostResult,
}

/// The shared dispatch state of one process. `C` is the sending end of a
/// one-shot result channel; the state keeps one per pending command and hands
/// it back, with the result, when the command completes.
pub struct AppState<C> {
    process_queue: VecDeque<ToolArguments>,
    output_map: HashMap<u128, C>,
    version: u64,
}

impl<C> View for AppState<C> {
    type V = DispatchModel<C>;

    closed spec fn view(&self) -> DispatchModel<C> {
        DispatchModel {
            queue: self.process_queue@,
            pending: self.output_map@,
            version: self.version,
        }
    }
}

impl<C> AppState<C> {
    /// The state of a process that has just started: nothing queued, nothing
    /// pending.
    pub fn new() -> (state: Self)
        ensures
            state@ == DispatchModel::<C>::empty(),
    {
        let state = AppState {
            process_queue: VecDeque::new(),
            output_map: HashMap::new(),
            version: 0,
        };
        assert(state@.queue =~= Seq::empty());
        assert(state@.pending =~= Map::empty());
        state
    }

    /// Appends the command to the queue, registers `channel` for its result
    /// and advances the change counter. An entry that was pending under the
    /// same identifier is replaced. Where the identifier is new to the queue,
    /// the queue's identifiers stay distinct.
    pub fn enqueue(&mut self, args: ToolArgumentValues, id: u128, channel: C)
        ensures
            final(self)@ == old(self)@.enqueue(args, id, channel),
            final(self)@.is_pending(id),
            final(self)@.version != old(self)@.version,
            old(self)@.distinct_identifiers() && !old(self)@.is_queued(id)
                ==> final(self)@.distinct_identifiers(),
    {
        self.process_queue.push_back(ToolArguments { args, id: Some(id) });
        self.output_map.insert(id, channel);
        self.version = if self.version == u64::MAX {
            0
        } else {
            self.version + 1
        };
        proof {
            if old(self)@.distinct_identifiers() && !old(self)@.is_queued(id) {
                crate::laws::lemma_enqueue_keeps_distinct(old(self)@, args, id, channel);
            }
        }
    }

    /// Hands out the oldest queued command, if there is one. Nothing else
    /// changes.
    pub fn try_dequeue(&mut self) -> (envelope: Option<ToolArguments>)
        ensures
            envelope == old(self)@.head(),
            final(self)@ == old(self)@.dequeue(),
            envelope.is_none() <==> old(self)@.queue.len() == 0,
            old(self)@.distinct_identifiers() ==> final(self)@.distinct_identifiers(),
    {
        let envelope = self.process_queue.pop_front();
        proof {
            if old(self)@.distinct_identifiers() {
                crate::laws::lemma_dequeue_keeps_distinct(old(self)@);
            }
        }
        envelope
    }

    /// The change counter as it stands: a waiter keeps it and later asks
    /// `has_changed` whether anything was enqueued since.
    pub fn register_waiter(&self) -> (handle: u64)
        ensures
            handle == self@.version,
    {
        self.version
    }

    /// Whether a command was enqueued since `handle` was taken. (After 2^64
    /// enqueues the counter comes round to the handle's value again.)
    pub fn has_changed(&self, handle: u64) -> (changed: bool)
        ensures
            changed == (self@.version != handle),
    {
        self.version != handle
    }

    /// Completes the command `id` with `result`. Where an entry is pending
    /// under `id`, it is removed and its channel comes back with the result,
    /// for the caller to send. Where none is, the state stays as it is and
    /// the error is `UnknownCommand`.
    pub fn complete(&mut self, id: u128, result: HostResult) -> (r: Result<Delivery<C>, Report>)
        ensures
            r.is_ok() <==> old(self)@.is_pending(id),
            match r {
                Ok(delivery) => {
                    &&& Some(delivery) == old(self)@.delivery(id, result)
                    &&& final(self)@ == old(self)@.forget(id)
                    &&& !final(self)@.is_pending(id)
                },
                Err(report) => {
                    &&& report.kind == ErrorKind::UnknownCommand
                    &&& final(self)@ == old(self)@
                },
            },
    {
        match self.output_map.remove(&id) {
            Some(channel) => Ok(Delivery { channel, result }),
            None => {
                assert(final(self)@.pending =~= old(self)@.pending);
                Err(Report::unknown_command())
            },
        }
    }

    /// Removes the pending entry of `id`, if there is one, without a
    /// delivery: the waiting side has gone.
    pub fn abandon(&mut self, id: u128)
        ensures
            final(self)@ == old(self)@.forget(id),
            !final(self)@.is_pending(id),
    {
        self.output_map.remove(&id);
    }

    /// Whether a result for `id` is still awaited.
    pub fn is_pending(&self, id: u128) -> (pending: bool)
        ensures
            pending == self@.is_pending(id),
    {
        self.output_map.contains_key(&id)
    }

    /// The number of queued commands.
    pub fn queue_len(&self) -> (n: usize)
        ensures
            n == self@.queue.len(),
    {
        self.process_queue.len()
    }

    /// The number of pending entries.
    pub fn pending_len(&self) -> (n: usize)
        ensures
            n == self@.pending.len(),
    {
        self.output_map.len()
    }
}

} // verus!
