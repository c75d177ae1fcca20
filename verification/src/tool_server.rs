use vstd::prelude::*;
use vstd::string::StringExecFns;
use crate::dispatch::AppState;
use crate::envelope::{is_random_identifier, HostResult, ToolArgumentValues, ToolArguments};
use crate::error::{ErrorKind, Report};

verus! {

/// The answer to a tool call. A command that failed in the host is an answer
/// too, marked as an error: the caller always gets a structured result.
#[derive(Clone, Debug, PartialEq, Eq)]
pub struct ToolOutcome {
    pub is_error: bool,
    pub text: String,
}

/// The answer that the host's result stands for.
pub open spec fn outcome_of(result: HostResult) -> ToolOutcome {
    match result {
        Ok(text) => ToolOutcome { is_error: false, text },
        Err(text) => ToolOutcome { is_error: true, text },
    }
}

/// Turns the host's result into the answer to the tool call.
pub fn tool_outcome(result: HostResult) -> (outcome: ToolOutcome)
    ensures
        outcome == outcome_of(result),
{
    match result {
        Ok(text) => ToolOutcome { is_error: false, text },
        Err(text) => ToolOutcome { is_error: true, text },
    }
}

/// Starts a tool call: draws an identifier, enqueues the command under it
/// with `channel` for the result, and returns the identifier. The caller
/// then waits on the receiving end of the channel. The identifier is random:
/// that no queued command has it already is taken for granted, not proved,
/// and the queue's identifiers stay distinct where it holds.
pub fn begin_tool_run<C>(state: &mut AppState<C>, args: ToolArgumentValues, channel: C) -> (id: u128)
    ensures
        final(state)@ == old(state)@.enqueue(args, id, channel),
        final(state)@.is_pending(id),
        is_random_identifier(id),
        old(state)@.distinct_identifiers() && !old(state)@.is_queued(id)
            ==> final(state)@.distinct_identifiers(),
{
    let (command, id) = ToolArguments::new(args);
    state.enqueue(command.args, id, channel);
    id
}

/// Ends the tool call `id` once its channel gave `received` (`None`: it
/// closed). Whatever was received, what may be left of the pending entry is
/// cleared. A result, success or failure, becomes the answer; a closed
/// channel is an error of the session.
pub fn finish_tool_run<C>(state: &mut AppState<C>, id: u128, received: Option<HostResult>) -> (r:
    Result<ToolOutcome, Report>)
    ensures
        final(state)@ == old(state)@.forget(id),
        !final(state)@.is_pending(id),
        match received {
            Some(result) => r == Ok::<ToolOutcome, Report>(outcome_of(result)),
            None => r is Err && r->Err_0.kind == ErrorKind::ChannelClosed,
        },
{
    state.abandon(id);
    match received {
        Some(result) => Ok(tool_outcome(result)),
        None => Err(Report::channel_closed()),
    }
}

/// The instructions that the server announces to its client.
pub fn server_instructions() -> (text: String)
    ensures
        text@ == "User run_command to query data from Roblox Studio place or to change it"@,
{
    String::from_str("User run_command to query data from Roblox Studio place or to change it")
}

} // verus!
