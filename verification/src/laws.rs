use vstd::prelude::*;
use crate::dispatch::{Delivery, DispatchModel};
use crate::endpoints::{
    poll_reply, poll_status, proxy_answer, relay_step, PollReply, RelayStep, STATUS_NO_WORK,
};
use crate::envelope::{envelope_of, HostResult, RunCommandResponse, ToolArgumentValues, ToolArguments};
use crate::tool_server::{outcome_of, ToolOutcome};

verus! {

/// Enqueueing under an identifier that no queued command has keeps the
/// queue's identifiers distinct.
pub proof fn lemma_enqueue_keeps_distinct<C>(
    s: DispatchModel<C>,
    args: ToolArgumentValues,
    id: u128,
    channel: C,
)
    requires
        s.distinct_identifiers(),
        !s.is_queued(id),
    ensures
        s.enqueue(args, id, channel).distinct_identifiers(),
{
    let t = s.enqueue(args, id, channel);
    assert forall|i: int, j: int| 0 <= i < j < t.queue.len() implies (#[trigger] t.queue[i]).id != (
    #[trigger] t.queue[j]).id by {
        if j == s.queue.len() {
            assert(t.queue[i] == s.queue[i]);
            if s.queue[i].id == Some(id) {
                assert(s.is_queued(id));
            }
        } else {
            assert(t.queue[i] == s.queue[i]);
            assert(t.queue[j] == s.queue[j]);
        }
    }
    assert forall|i: int| 0 <= i < t.queue.len() implies (#[trigger] t.queue[i]).id.is_some() by {
        if i < s.queue.len() {
            assert(t.queue[i] == s.queue[i]);
        }
    }
}

/// A dequeue keeps the queue's identifiers distinct.
pub proof fn lemma_dequeue_keeps_distinct<C>(s: DispatchModel<C>)
    requires
        s.distinct_identifiers(),
    ensures
        s.dequeue().distinct_identifiers(),
{
    let t = s.dequeue();
    if s.queue.len() > 0 {
        assert forall|i: int| 0 <= i < t.queue.len() implies (#[trigger] t.queue[i]).id.is_some() by {
            assert(t.queue[i] == s.queue[i + 1]);
        }
        assert forall|i: int, j: int| 0 <= i < j < t.queue.len() implies (#[trigger] t.queue[i]).id
            != (#[trigger] t.queue[j]).id by {
            assert(t.queue[i] == s.queue[i + 1]);
            assert(t.queue[j] == s.queue[j + 1]);
        }
    }
}

/// One step in the life of a dispatch state.
pub enum DispatchOp<C> {
    /// A command is enqueued under an identifier, with its result channel.
    Enqueue { args: ToolArgumentValues, id: u128, channel: C },
    /// The oldest queued command, if any, is handed out.
    Dequeue,
    /// A result arrives for an identifier.
    Complete { id: u128 },
    /// The waiting side of an identifier gives up.
    Abandon { id: u128 },
}

/// The state after one step.
pub open spec fn step<C>(s: DispatchModel<C>, op: DispatchOp<C>) -> DispatchModel<C> {
    match op {
        DispatchOp::Enqueue { args, id, channel } => s.enqueue(args, id, channel),
        DispatchOp::Dequeue => s.dequeue(),
        DispatchOp::Complete { id } => s.forget(id),
        DispatchOp::Abandon { id } => s.forget(id),
    }
}

/// The state after the steps `ops`, taken in order from `s`.
pub open spec fn state_after<C>(s: DispatchModel<C>, ops: Seq<DispatchOp<C>>) -> DispatchModel<C>
    decreases ops.len(),
{
    if ops.len() == 0 {
        s
    } else {
        step(state_after(s, ops.drop_last()), ops.last())
    }
}

/// The commands that the steps `ops` enqueued, in order.
pub open spec fn accepted<C>(ops: Seq<DispatchOp<C>>) -> Seq<ToolArguments>
    decreases ops.len(),
{
    if ops.len() == 0 {
        Seq::empty()
    } else {
        match ops.last() {
            DispatchOp::Enqueue { args, id, channel } => accepted(ops.drop_last()).push(
                envelope_of(args, id),
            ),
            _ => accepted(ops.drop_last()),
        }
    }
}

/// The commands that the dequeues among `ops` handed out, in order, when the
/// steps are taken from `s`.
pub open spec fn handed_out<C>(s: DispatchModel<C>, ops: Seq<DispatchOp<C>>) -> Seq<ToolArguments>
    decreases ops.len(),
{
    if ops.len() == 0 {
        Seq::empty()
    } else {
        match (ops.last(), state_after(s, ops.drop_last()).head()) {
            (DispatchOp::Dequeue, Some(envelope)) => handed_out(s, ops.drop_last()).push(envelope),
            _ => handed_out(s, ops.drop_last()),
        }
    }
}

/// Whether one of the steps `ops` enqueues a command under `id`.
pub open spec fn enqueues<C>(ops: Seq<DispatchOp<C>>, id: u128) -> bool {
    exists|k: int| 0 <= k < ops.len() && (#[trigger] ops[k]) is Enqueue && ops[k]->Enqueue_id == id
}

/// First in, first out. Whatever steps are taken and in whatever order, the
/// commands handed out so far, followed by those still queued, are the
/// commands that were queued at the start followed by those enqueued since,
/// each once and in that order.
pub proof fn law_fifo<C>(s: DispatchModel<C>, ops: Seq<DispatchOp<C>>)
    ensures
        handed_out(s, ops) + state_after(s, ops).queue == s.queue + accepted(ops),
    decreases ops.len(),
{
    if ops.len() == 0 {
        assert(handed_out(s, ops) + state_after(s, ops).queue =~= s.queue + accepted(ops));
    } else {
        let before = ops.drop_last();
        law_fifo(s, before);
        let t = state_after(s, before);
        let out = handed_out(s, before);
        let all = s.queue + accepted(before);
        assert(out + t.queue == all);
        match ops.last() {
            DispatchOp::Enqueue { args, id, channel } => {
                assert(out + t.queue.push(envelope_of(args, id)) =~= (out + t.queue).push(
                    envelope_of(args, id),
                ));
                assert(s.queue + accepted(before).push(envelope_of(args, id)) =~= all.push(
                    envelope_of(args, id),
                ));
            },
            DispatchOp::Dequeue => {
                if t.queue.len() > 0 {
                    assert(out.push(t.queue[0]) + t.queue.subrange(1, t.queue.len() as int) =~= out
                        + t.queue);
                }
            },
            DispatchOp::Complete { id } => {},
            DispatchOp::Abandon { id } => {},
        }
    }
}

/// Of two commands, the one enqueued first is handed out no later: where the
/// later one, at place `j` of all that was ever queued, has been handed out,
/// so has the earlier one at place `i`, and each came out at its own place.
pub proof fn law_fifo_order<C>(s: DispatchModel<C>, ops: Seq<DispatchOp<C>>, i: int, j: int)
    requires
        0 <= i < j < handed_out(s, ops).len(),
    ensures
        j < (s.queue + accepted(ops)).len(),
        handed_out(s, ops)[i] == (s.queue + accepted(ops))[i],
        handed_out(s, ops)[j] == (s.queue + accepted(ops))[j],
{
    law_fifo(s, ops);
    let out = handed_out(s, ops);
    let rest = state_after(s, ops).queue;
    assert((out + rest).len() == out.len() + rest.len());
    assert((out + rest)[i] == out[i]);
    assert((out + rest)[j] == out[j]);
}

/// A result is delivered at most once. Once no entry is pending under `id`,
/// as after a successful completion, none is pending after any further steps
/// unless one of them enqueues a command under `id` again; so every further
/// completion of `id` fails with `UnknownCommand`.
pub proof fn law_complete_at_most_once<C>(s: DispatchModel<C>, id: u128, ops: Seq<DispatchOp<C>>)
    requires
        !enqueues(ops, id),
    ensures
        !s.forget(id).is_pending(id),
        !state_after(s.forget(id), ops).is_pending(id),
    decreases ops.len(),
{
    if ops.len() > 0 {
        let before = ops.drop_last();
        assert forall|k: int| 0 <= k < before.len() implies !((#[trigger] before[k]) is Enqueue
            && before[k]->Enqueue_id == id) by {
            assert(before[k] == ops[k]);
        }
        law_complete_at_most_once(s, id, before);
        assert(ops.last() == ops[ops.len() - 1]);
    }
}

/// After `n` dequeues the first `n` queued commands are gone, and nothing
/// else has changed.
pub proof fn lemma_dequeue_many<C>(s: DispatchModel<C>, n: nat)
    requires
        n <= s.queue.len(),
    ensures
        s.dequeue_many(n).queue == s.queue.skip(n as int),
        s.dequeue_many(n).pending == s.pending,
        s.dequeue_many(n).version == s.version,
    decreases n,
{
    if n == 0 {
        assert(s.queue.skip(0) =~= s.queue);
    } else {
        lemma_dequeue_many(s.dequeue(), (n - 1) as nat);
        assert(s.dequeue().queue.skip(n - 1) =~= s.queue.skip(n as int));
    }
}

/// Round trip. A command enqueued behind `n` others is the one handed out by
/// dequeue number `n + 1`, unchanged; and while nobody completes or abandons
/// it, its entry stays pending with the channel it was enqueued with, so that
/// a completion with `payload` succeeds and delivers exactly `payload` to
/// that very channel, where it becomes a successful answer with that text,
/// and leaves no entry behind.
pub proof fn law_round_trip<C>(
    s: DispatchModel<C>,
    args: ToolArgumentValues,
    id: u128,
    channel: C,
    payload: String,
)
    ensures
        ({
            let n = s.queue.len();
            let queued = s.enqueue(args, id, channel);
            let served = queued.dequeue_many(n + 1);
            let result: HostResult = Ok(payload);
            &&& queued.dequeue_many(n).head() == Some(envelope_of(args, id))
            &&& served.queue.len() == 0
            &&& served.delivery(id, result) == Some(Delivery { channel, result })
            &&& outcome_of(result) == (ToolOutcome { is_error: false, text: payload })
            &&& !served.forget(id).is_pending(id)
        }),
{
    let n = s.queue.len();
    let queued = s.enqueue(args, id, channel);
    lemma_dequeue_many(queued, n);
    lemma_dequeue_many(queued, n + 1);
}

/// Relay transparency. A follower enqueues a command behind `n` others; its
/// relay takes the command out unchanged and forwards it; the owner enqueues
/// the forwarded copy with a channel of its own. When the owner completes
/// that copy with `payload`, the payload goes to the proxy call's channel and
/// comes back as the result message; the follower, completing its own entry
/// with the response of that message, delivers `payload` to the channel of
/// the invocation that began it, where it becomes a successful answer with
/// that text. After that neither process holds an entry for the identifier.
pub proof fn law_relay_transparency<C>(
    follower: DispatchModel<C>,
    owner: DispatchModel<C>,
    args: ToolArgumentValues,
    id: u128,
    origin: C,
    proxy: C,
    payload: String,
)
    ensures
        ({
            let n = follower.queue.len();
            let queued = follower.enqueue(args, id, origin);
            let relaying = queued.dequeue_many(n + 1);
            let owning = owner.enqueue(args, id, proxy);
            let result: HostResult = Ok(payload);
            let answer = proxy_answer(id, Some(result));
            &&& relay_step(queued.dequeue_many(n)) == RelayStep::Forward(envelope_of(args, id))
            &&& owning.queue.last() == envelope_of(args, id)
            &&& owning.delivery(id, result) == Some(Delivery { channel: proxy, result })
            &&& answer == Some(RunCommandResponse { response: payload, id })
            &&& relaying.delivery(id, Ok(answer->0.response)) == Some(
                Delivery { channel: origin, result },
            )
            &&& outcome_of(result) == (ToolOutcome { is_error: false, text: payload })
            &&& !relaying.forget(id).is_pending(id)
            &&& !owning.forget(id).is_pending(id)
        }),
{
    law_round_trip(follower, args, id, origin, payload);
}

/// Whether every enqueue among `ops` comes with an identifier that no command
/// queued in `s` has and that no earlier enqueue among `ops` used.
pub open spec fn fresh_identifiers<C>(s: DispatchModel<C>, ops: Seq<DispatchOp<C>>) -> bool {
    &&& forall|k: int|
        0 <= k < ops.len() && (#[trigger] ops[k]) is Enqueue ==> !s.is_queued(ops[k]->Enqueue_id)
    &&& forall|m: int, k: int|
        0 <= m < k < ops.len() && (#[trigger] ops[m]) is Enqueue && (#[trigger] ops[k]) is Enqueue
            ==> ops[m]->Enqueue_id != ops[k]->Enqueue_id
}

/// A queued command was queued at the start or enqueued since.
pub proof fn lemma_queued_origin<C>(s: DispatchModel<C>, ops: Seq<DispatchOp<C>>, id: u128)
    requires
        state_after(s, ops).is_queued(id),
    ensures
        s.is_queued(id) || enqueues(ops, id),
    decreases ops.len(),
{
    if ops.len() > 0 {
        let before = ops.drop_last();
        let t = state_after(s, before);
        let u = state_after(s, ops);
        let i = choose|i: int| 0 <= i < u.queue.len() && #[trigger] u.queue[i].id == Some(id);
        let last = ops.len() - 1;
        assert(ops.last() == ops[last]);
        let mut in_before = false;
        match ops.last() {
            DispatchOp::Enqueue { args, id: other, channel } => {
                if i < t.queue.len() {
                    assert(t.queue[i].id == Some(id));
                    in_before = true;
                } else {
                    assert(other == id);
                    assert(ops[last] is Enqueue && ops[last]->Enqueue_id == id);
                }
            },
            DispatchOp::Dequeue => {
                if t.queue.len() > 0 {
                    assert(u.queue[i] == t.queue[i + 1]);
                    assert(t.queue[i + 1].id == Some(id));
                } else {
                    assert(t.queue[i].id == Some(id));
                }
                in_before = true;
            },
            DispatchOp::Complete { id: other } => {
                assert(t.queue[i].id == Some(id));
                in_before = true;
            },
            DispatchOp::Abandon { id: other } => {
                assert(t.queue[i].id == Some(id));
                in_before = true;
            },
        }
        if in_before {
            assert(t.is_queued(id));
            lemma_queued_origin(s, before, id);
            if !s.is_queued(id) {
                let k = choose|k: int|
                    0 <= k < before.len() && (#[trigger] before[k]) is Enqueue
                        && before[k]->Enqueue_id == id;
                assert(ops[k] == before[k]);
            }
        }
    }
}

/// Identifiers stay unique. From a state whose queued commands have distinct
/// identifiers, steps whose enqueues each bring an identifier not used before
/// lead to a state whose queued commands have distinct identifiers.
pub proof fn law_identifiers_stay_distinct<C>(s: DispatchModel<C>, ops: Seq<DispatchOp<C>>)
    requires
        s.distinct_identifiers(),
        fresh_identifiers(s, ops),
    ensures
        state_after(s, ops).distinct_identifiers(),
    decreases ops.len(),
{
    if ops.len() > 0 {
        let before = ops.drop_last();
        let last = ops.len() - 1;
        assert forall|k: int| 0 <= k < before.len() implies before[k] == ops[k] by {}
        assert(fresh_identifiers(s, before));
        law_identifiers_stay_distinct(s, before);
        let t = state_after(s, before);
        assert(ops.last() == ops[last]);
        match ops.last() {
            DispatchOp::Enqueue { args, id, channel } => {
                if t.is_queued(id) {
                    lemma_queued_origin(s, before, id);
                    if !s.is_queued(id) {
                        let m = choose|m: int|
                            0 <= m < before.len() && (#[trigger] before[m]) is Enqueue
                                && before[m]->Enqueue_id == id;
                        assert(ops[m] == before[m]);
                        assert(ops[m]->Enqueue_id != ops[last]->Enqueue_id);
                    }
                }
                lemma_enqueue_keeps_distinct(t, args, id, channel);
            },
            DispatchOp::Dequeue => {
                lemma_dequeue_keeps_distinct(t);
            },
            DispatchOp::Complete { id } => {},
            DispatchOp::Abandon { id } => {},
        }
    }
}

/// Long-poll bound. Against an empty queue a poll is answered with "no work"
/// once its window has gone by. Before that it waits for exactly what is left
/// of the window, so that, asked again when that wait is over, it is answered
/// then at the latest. It never waits beyond the window.
pub proof fn law_long_poll_bound<C>(s: DispatchModel<C>, elapsed_ms: u64, window_ms: u64)
    requires
        s.queue.len() == 0,
    ensures
        elapsed_ms >= window_ms ==> poll_reply(s, elapsed_ms, window_ms) == PollReply::NoWork,
        poll_status(PollReply::NoWork) == Some(STATUS_NO_WORK),
        elapsed_ms < window_ms ==> ({
            let reply = poll_reply(s, elapsed_ms, window_ms);
            &&& reply is Wait
            &&& reply->handle == s.version
            &&& elapsed_ms + reply->remaining_ms == window_ms
            &&& poll_reply(s, (elapsed_ms + reply->remaining_ms) as u64, window_ms)
                == PollReply::NoWork
        }),
{
}

} // verus!
