use vstd::prelude::*;
use crate::dispatch::{AppState, Delivery, DispatchModel};
use crate::envelope::{HostResult, RunCommandResponse, ToolArguments};
use crate::error::{ErrorKind, Report};

verus! {

/// The local TCP port that every bridge process on a machine tries to bind.
/// The one that gets it serves the host; the others relay through it.
pub const STUDIO_PLUGIN_PORT: u16 = 44755;

/// How long a poll is held open before it is answered with "no work", in
/// milliseconds.
pub const LONG_POLL_DURATION_MS: u64 = 15000;

/// Status of a poll that hands out a command.
pub const STATUS_OK: u16 = 200;

/// Status of a poll whose window went by with nothing to hand out. It is no
/// error: the host polls again.
pub const STATUS_NO_WORK: u16 = 423;

/// What a poll does next.
#[derive(Clone, Debug, PartialEq, Eq)]
pub enum PollReply {
    /// Answer with this command.
    Work(ToolArguments),
    /// Answer that there is no work yet.
    NoWork,
    /// Sleep until the change counter differs from `handle` or `remaining_ms`
    /// have gone by, then ask again.
    Wait { handle: u64, remaining_ms: u64 },
}

/// What a poll does in state `s` when `elapsed_ms` of its window of
/// `window_ms` have gone by: the queue is looked at first, the clock second.
pub open spec fn poll_reply<C>(s: DispatchModel<C>, elapsed_ms: u64, window_ms: u64) -> PollReply {
    match s.head() {
        Some(envelope) => PollReply::Work(envelope),
        None => if elapsed_ms >= window_ms {
            PollReply::NoWork
        } else {
            PollReply::Wait { handle: s.version, remaining_ms: (window_ms - elapsed_ms) as u64 }
        },
    }
}

/// The status that answers the poll, where the reply is an answer.
pub open spec fn poll_status(reply: PollReply) -> Option<u16> {
    match reply {
        PollReply::Work(_) => Some(STATUS_OK),
        PollReply::NoWork => Some(STATUS_NO_WORK),
        PollReply::Wait { .. } => None,
    }
}

impl PollReply {
    /// The status that answers the poll; `None` while the poll still waits.
    pub fn status(&self) -> (status: Option<u16>)
        ensures
            status == poll_status(*self),
    {
        match self {
            PollReply::Work(_) => Some(STATUS_OK),
            PollReply::NoWork => Some(STATUS_NO_WORK),
            PollReply::Wait { .. } => None,
        }
    }
}

/// One round of the poll endpoint, `elapsed_ms` after the poll came in.
/// A queued command is handed out at once, the oldest first. With an empty
/// queue the poll waits while its window lasts, and is answered with "no
/// work" once `elapsed_ms` has reached `window_ms`: it never waits beyond.
pub fn request_handler<C>(state: &mut AppState<C>, elapsed_ms: u64, window_ms: u64) -> (reply:
    PollReply)
    ensures
        reply == poll_reply(old(state)@, elapsed_ms, window_ms),
        final(state)@ == old(state)@.dequeue(),
        elapsed_ms >= window_ms ==> !(reply is Wait),
        reply is Wait ==> final(state)@ == old(state)@ && reply->remaining_ms <= window_ms
            && reply->remaining_ms > 0,
{
    match state.try_dequeue() {
        Some(envelope) => PollReply::Work(envelope),
        None => {
            if elapsed_ms >= window_ms {
                PollReply::NoWork
            } else {
                PollReply::Wait {
                    handle: state.register_waiter(),
                    remaining_ms: window_ms - elapsed_ms,
                }
            }
        },
    }
}

/// The result endpoint: completes the command that the message names with
/// its response, as a success. Fails with `UnknownCommand`, and changes
/// nothing, where no entry is pending under that identifier.
pub fn response_handler<C>(state: &mut AppState<C>, payload: RunCommandResponse) -> (r: Result<
    Delivery<C>,
    Report,
>)
    ensures
        r.is_ok() <==> old(state)@.is_pending(payload.id),
        match r {
            Ok(delivery) => {
                &&& Some(delivery) == old(state)@.delivery(
                    payload.id,
                    Ok::<String, String>(payload.response),
                )
                &&& final(state)@ == old(state)@.forget(payload.id)
            },
            Err(report) => {
                &&& report.kind == ErrorKind::UnknownCommand
                &&& final(state)@ == old(state)@
            },
        },
{
    state.complete(payload.id, Ok(payload.response))
}

/// The first half of the proxy endpoint: takes a command that a sibling
/// process forwards and enqueues it like one of this process's own, with
/// `channel` for its result. A command without identifier is refused with
/// `MissingIdentifier` and changes nothing.
pub fn proxy_handler<C>(state: &mut AppState<C>, command: ToolArguments, channel: C) -> (r: Result<
    u128,
    Report,
>)
    ensures
        match command.id {
            Some(id) => {
                &&& r == Ok::<u128, Report>(id)
                &&& final(state)@ == old(state)@.enqueue(command.args, id, channel)
            },
            None => {
                &&& r is Err
                &&& r->Err_0.kind == ErrorKind::MissingIdentifier
                &&& final(state)@ == old(state)@
            },
        },
{
    match command.id {
        Some(id) => {
            state.enqueue(command.args, id, channel);
            Ok(id)
        },
        None => Err(Report::missing_identifier()),
    }
}

/// The result message that answers the forwarded command `id` when its
/// channel gave `received`; none where the channel closed or the host failed.
pub open spec fn proxy_answer(id: u128, received: Option<HostResult>) -> Option<
    RunCommandResponse,
> {
    match received {
        Some(Ok(response)) => Some(RunCommandResponse { response, id }),
        _ => None,
    }
}

/// The second half of the proxy endpoint: what is sent back once the result
/// channel of the forwarded command `id` gave `received` (`None`: it closed).
/// A success becomes the result message and clears what may be left of the
/// pending entry; a closed channel or a failure of the host becomes an error
/// and leaves the state alone.
pub fn proxy_reply<C>(state: &mut AppState<C>, id: u128, received: Option<HostResult>) -> (r:
    Result<RunCommandResponse, Report>)
    ensures
        r.ok() == proxy_answer(id, received),
        match received {
            Some(Ok(response)) => {
                &&& r == Ok::<RunCommandResponse, Report>(RunCommandResponse { response, id })
                &&& final(state)@ == old(state)@.forget(id)
            },
            Some(Err(text)) => {
                &&& r is Err
                &&& r->Err_0.kind == ErrorKind::HostExecution
                &&& r->Err_0.detail == text
                &&& final(state)@ == old(state)@
            },
            None => {
                &&& r is Err
                &&& r->Err_0.kind == ErrorKind::ChannelClosed
                &&& final(state)@ == old(state)@
            },
        },
{
    match received {
        Some(Ok(response)) => {
            state.abandon(id);
            Ok(RunCommandResponse { response, id })
        },
        Some(Err(text)) => Err(Report::host_execution(text)),
        None => Err(Report::channel_closed()),
    }
}

/// What the relay of a follower process does next.
#[derive(Clone, Debug, PartialEq, Eq)]
pub enum RelayStep {
    /// Post this command to the owner's proxy endpoint and await the reply.
    Forward(ToolArguments),
    /// Sleep until the change counter differs from this handle.
    Wait(u64),
    /// Shutdown was asked for: leave the loop.
    Stop,
}

/// What the relay does next in state `s`.
pub open spec fn relay_step<C>(s: DispatchModel<C>) -> RelayStep {
    match s.head() {
        Some(envelope) => RelayStep::Forward(envelope),
        None => RelayStep::Wait(s.version),
    }
}

/// One round of the relay: the oldest queued command leaves the queue to be
/// forwarded; with an empty queue the relay waits for the next enqueue.
pub fn relay_next<C>(state: &mut AppState<C>) -> (step: RelayStep)
    ensures
        step == relay_step(old(state)@),
        final(state)@ == old(state)@.dequeue(),
{
    match state.try_dequeue() {
        Some(envelope) => RelayStep::Forward(envelope),
        None => RelayStep::Wait(state.register_waiter()),
    }
}

/// What became of a forwarded command whose identifier is `id`. `reply` is
/// `None` where the owner could not be reached: the pending entry then stays
/// as it is and nothing is delivered. Otherwise it holds the owner's
/// response, or the text of the failure to read one, and the local entry is
/// completed with it.
pub fn relay_deliver<C>(state: &mut AppState<C>, id: Option<u128>, reply: Option<HostResult>) -> (r:
    Result<Option<Delivery<C>>, Report>)
    ensures
        match (reply, id) {
            (None, _) => {
                &&& r is Ok
                &&& r->Ok_0 is None
                &&& final(state)@ == old(state)@
            },
            (Some(_), None) => {
                &&& r is Err
                &&& r->Err_0.kind == ErrorKind::MissingIdentifier
                &&& final(state)@ == old(state)@
            },
            (Some(result), Some(id)) => if old(state)@.is_pending(id) {
                &&& r is Ok
                &&& r->Ok_0 == old(state)@.delivery(id, result)
                &&& final(state)@ == old(state)@.forget(id)
            } else {
                &&& r is Err
                &&& r->Err_0.kind == ErrorKind::UnknownCommand
                &&& final(state)@ == old(state)@
            },
        },
{
    match reply {
        None => Ok(None),
        Some(result) => match id {
            None => Err(Report::missing_identifier()),
            Some(id) => match state.complete(id, result) {
                Ok(delivery) => Ok(Some(delivery)),
                Err(report) => Err(report),
            },
        },
    }
}

/// What the relay learned since its last turn.
#[derive(Debug, PartialEq, Eq)]
pub enum RelayEvent {
    /// Nothing: the loop starts, or it was woken by an enqueue.
    Idle,
    /// The command it forwarded did not reach the owner.
    Unreachable,
    /// The owner answered the forwarded command `id` with this response, or
    /// with a body that could not be read (the text says why).
    Replied { id: Option<u128>, result: HostResult },
}

/// What one turn of the relay gives: what to deliver or to log for the
/// command forwarded last, and what to do next.
#[derive(Debug)]
pub struct RelayTurn<C> {
    pub outcome: Result<Option<Delivery<C>>, Report>,
    pub next: RelayStep,
}

/// The state after the relay dealt with `event`, before it looks for the
/// next command: the answered command's entry is gone, nothing else changed.
pub open spec fn relay_settled<C>(s: DispatchModel<C>, event: RelayEvent) -> DispatchModel<C> {
    match event {
        RelayEvent::Replied { id: Some(id), result } => s.forget(id),
        _ => s,
    }
}

/// One turn of the relay loop of a follower process. First the event is dealt
/// with: an answer completes the local entry of the command it belongs to
/// (`UnknownCommand` where none is pending, `MissingIdentifier` where the
/// command had no identifier); an owner out of reach leaves the entry as it
/// is. Then, unless `exit` asks to stop, the oldest queued command leaves the
/// queue to be forwarded, or the relay waits for the next enqueue.
pub fn dud_proxy_loop<C>(state: &mut AppState<C>, exit: bool, event: RelayEvent) -> (turn:
    RelayTurn<C>)
    ensures
        match event {
            RelayEvent::Replied { id: Some(id), result } => if old(state)@.is_pending(id) {
                &&& turn.outcome is Ok
                &&& turn.outcome->Ok_0 == old(state)@.delivery(id, result)
            } else {
                &&& turn.outcome is Err
                &&& turn.outcome->Err_0.kind == ErrorKind::UnknownCommand
            },
            RelayEvent::Replied { id: None, result } => {
                &&& turn.outcome is Err
                &&& turn.outcome->Err_0.kind == ErrorKind::MissingIdentifier
            },
            _ => turn.outcome is Ok && turn.outcome->Ok_0 is None,
        },
        turn.next == (if exit {
            RelayStep::Stop
        } else {
            relay_step(relay_settled(old(state)@, event))
        }),
        final(state)@ == (if exit {
            relay_settled(old(state)@, event)
        } else {
            relay_settled(old(state)@, event).dequeue()
        }),
{
    let outcome = match event {
        RelayEvent::Replied { id, result } => {
            proof {
                if id is Some && !old(state)@.is_pending(id->0) {
                    assert(old(state)@.forget(id->0).pending =~= old(state)@.pending);
                }
            }
            relay_deliver(state, id, Some(result))
        },
        _ => Ok(None),
    };
    let next = if exit {
        RelayStep::Stop
    } else {
        relay_next(state)
    };
    RelayTurn { outcome, next }
}

} // verus!
