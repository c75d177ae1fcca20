use std::sync::mpsc::{channel, Receiver, Sender};
use studio_bridge::dispatch::{AppState, Delivery};
use studio_bridge::endpoints::{
    dud_proxy_loop, proxy_handler, proxy_reply, relay_deliver, relay_next, request_handler,
    response_handler, PollReply, RelayEvent, RelayStep, LONG_POLL_DURATION_MS, STATUS_NO_WORK,
    STATUS_OK, STUDIO_PLUGIN_PORT,
};
use studio_bridge::envelope::{
    DeletePart, GetProjectStructure, HostResult, InsertModel, RunCode, RunCommandResponse,
    ToolArgumentValues, ToolArguments,
};
use studio_bridge::error::{ErrorKind, Report};
use studio_bridge::tool_server::{
    begin_tool_run, finish_tool_run, server_instructions, tool_outcome, ToolOutcome,
};

type Tx = Sender<HostResult>;

fn run_code(text: &str) -> ToolArgumentValues {
    ToolArgumentValues::RunCode(RunCode { command: text.to_string() })
}

fn delete_part(name: &str) -> ToolArgumentValues {
    ToolArgumentValues::DeletePart(DeletePart { part_name: name.to_string() })
}

fn send(delivery: Delivery<Tx>) {
    delivery.channel.send(delivery.result).unwrap();
}

fn pair() -> (Tx, Receiver<HostResult>) {
    channel()
}

#[test]
fn new_state_is_empty() {
    let mut state: AppState<Tx> = AppState::new();
    assert_eq!(state.queue_len(), 0);
    assert_eq!(state.pending_len(), 0);
    assert_eq!(state.register_waiter(), 0);
    assert_eq!(state.try_dequeue(), None);
}

#[test]
fn enqueue_appends_registers_and_notifies() {
    let mut state: AppState<u8> = AppState::new();
    let handle = state.register_waiter();
    assert!(!state.has_changed(handle));
    state.enqueue(run_code("print(1)"), 7, 1);
    assert_eq!(state.queue_len(), 1);
    assert_eq!(state.pending_len(), 1);
    assert!(state.is_pending(7));
    assert!(!state.is_pending(8));
    assert!(state.has_changed(handle));
    assert_eq!(state.register_waiter(), 1);
}

#[test]
fn enqueue_same_identifier_replaces_the_channel() {
    let mut state: AppState<u8> = AppState::new();
    state.enqueue(run_code("a"), 7, 1);
    state.enqueue(run_code("b"), 7, 2);
    assert_eq!(state.queue_len(), 2);
    assert_eq!(state.pending_len(), 1);
    let delivery = state.complete(7, Ok("x".to_string())).unwrap();
    assert_eq!(delivery.channel, 2);
}

#[test]
fn generated_identifiers_are_distinct() {
    let mut state: AppState<u32> = AppState::new();
    let mut ids: Vec<u128> = Vec::new();
    for k in 0..200u32 {
        ids.push(begin_tool_run(&mut state, run_code("x"), k));
    }
    for i in 0..ids.len() {
        for j in (i + 1)..ids.len() {
            assert_ne!(ids[i], ids[j]);
        }
    }
    assert_eq!(state.pending_len(), 200);
    assert_eq!(state.queue_len(), 200);
}

#[test]
fn generated_identifier_is_a_random_uuid() {
    let (first, a) = ToolArguments::new(run_code("x"));
    let (second, b) = first.clone().with_id();
    assert_eq!(first.id, Some(a));
    assert_eq!(second.id, Some(b));
    assert_eq!(second.args, first.args);
    assert_ne!(a, b);
    for id in [a, b] {
        let parsed = uuid::Uuid::from_u128(id);
        assert_eq!(parsed.get_version_num(), 4);
        assert_eq!(id & 0xF000_C000_0000_0000_0000u128, 0x4000_8000_0000_0000_0000u128);
    }
}

#[test]
fn with_id_replaces_an_identifier() {
    let envelope = ToolArguments { args: delete_part("Door"), id: Some(1) };
    let (renamed, id) = envelope.with_id();
    assert_eq!(renamed.id, Some(id));
    assert_ne!(id, 1);
    assert_eq!(renamed.args, delete_part("Door"));
}

#[test]
fn commands_leave_in_the_order_they_came() {
    let mut state: AppState<u8> = AppState::new();
    state.enqueue(run_code("a"), 1, 0);
    state.enqueue(delete_part("b"), 2, 0);
    assert_eq!(
        state.try_dequeue(),
        Some(ToolArguments { args: run_code("a"), id: Some(1) })
    );
    state.enqueue(run_code("c"), 3, 0);
    assert_eq!(
        state.try_dequeue(),
        Some(ToolArguments { args: delete_part("b"), id: Some(2) })
    );
    assert_eq!(
        state.try_dequeue(),
        Some(ToolArguments { args: run_code("c"), id: Some(3) })
    );
    assert_eq!(state.try_dequeue(), None);
    assert_eq!(state.pending_len(), 3);
}

#[test]
fn complete_succeeds_at_most_once() {
    let mut state: AppState<u8> = AppState::new();
    state.enqueue(run_code("a"), 9, 5);
    let first = state.complete(9, Ok("X".to_string())).unwrap();
    assert_eq!(first.channel, 5);
    assert_eq!(first.result, Ok("X".to_string()));
    assert!(!state.is_pending(9));
    let second = state.complete(9, Ok("X".to_string())).unwrap_err();
    assert_eq!(second.kind, ErrorKind::UnknownCommand);
    assert_eq!(state.queue_len(), 1);
}

#[test]
fn complete_hands_on_a_failure_of_the_host() {
    let mut state: AppState<u8> = AppState::new();
    state.enqueue(run_code("error('boom')"), 9, 5);
    let delivery = state.complete(9, Err("boom".to_string())).unwrap();
    assert_eq!(delivery.result, Err("boom".to_string()));
}

#[test]
fn abandon_removes_without_delivery() {
    let mut state: AppState<u8> = AppState::new();
    state.enqueue(run_code("a"), 9, 5);
    state.abandon(9);
    assert!(!state.is_pending(9));
    assert_eq!(state.queue_len(), 1);
    state.abandon(9);
    assert_eq!(state.pending_len(), 0);
    assert_eq!(
        state.complete(9, Ok("late".to_string())).unwrap_err().kind,
        ErrorKind::UnknownCommand
    );
}

#[test]
fn round_trip_reaches_the_waiting_invocation() {
    let mut state: AppState<Tx> = AppState::new();
    let (tx, rx) = pair();
    let args = ToolArgumentValues::InsertModel(InsertModel { query: "tree".to_string() });
    let id = begin_tool_run(&mut state, args.clone(), tx);
    let envelope = state.try_dequeue().unwrap();
    assert_eq!(envelope, ToolArguments { args, id: Some(id) });
    send(state.complete(id, Ok("X".to_string())).unwrap());
    let received = rx.try_recv().ok();
    assert_eq!(received, Some(Ok("X".to_string())));
    let outcome = finish_tool_run(&mut state, id, received).unwrap();
    assert_eq!(outcome, ToolOutcome { is_error: false, text: "X".to_string() });
    assert_eq!(state.pending_len(), 0);
}

#[test]
fn scenario_run_code_resolves_to_two() {
    let mut state: AppState<Tx> = AppState::new();
    let (tx, rx) = pair();
    let u1: u128 = 0x6f1d_2c3a_9b7e_4e21_8a55_0123_4567_89ab;
    state.enqueue(run_code("return 1+1"), u1, tx);
    let reply = request_handler(&mut state, 0, LONG_POLL_DURATION_MS);
    assert_eq!(reply.status(), Some(STATUS_OK));
    match reply {
        PollReply::Work(envelope) => {
            assert_eq!(envelope.id, Some(u1));
            assert_eq!(envelope.args, run_code("return 1+1"));
        }
        other => panic!("expected work, got {:?}", other),
    }
    let posted = RunCommandResponse { id: u1, response: "2".to_string() };
    send(response_handler(&mut state, posted).unwrap());
    let outcome = finish_tool_run(&mut state, u1, rx.try_recv().ok()).unwrap();
    assert_eq!(outcome, ToolOutcome { is_error: false, text: "2".to_string() });
}

#[test]
fn scenario_poll_on_empty_queue_times_out_with_no_work() {
    let mut state: AppState<Tx> = AppState::new();
    let waiting = request_handler(&mut state, 0, 15_000);
    assert_eq!(waiting, PollReply::Wait { handle: 0, remaining_ms: 15_000 });
    assert_eq!(waiting.status(), None);
    let later = request_handler(&mut state, 14_999, 15_000);
    assert_eq!(later, PollReply::Wait { handle: 0, remaining_ms: 1 });
    let reply = request_handler(&mut state, 15_000, 15_000);
    assert_eq!(reply, PollReply::NoWork);
    assert_eq!(reply.status(), Some(STATUS_NO_WORK));
    assert_eq!(reply.status(), Some(423));
    assert_ne!(reply.status(), Some(STATUS_OK));
    assert_eq!(request_handler(&mut state, u64::MAX, 15_000), PollReply::NoWork);
}

#[test]
fn poll_hands_out_work_even_after_the_window() {
    let mut state: AppState<u8> = AppState::new();
    state.enqueue(run_code("a"), 1, 0);
    let reply = request_handler(&mut state, 20_000, 15_000);
    assert_eq!(reply, PollReply::Work(ToolArguments { args: run_code("a"), id: Some(1) }));
    assert_eq!(state.queue_len(), 0);
}

#[test]
fn poll_wakes_on_enqueue() {
    let mut state: AppState<u8> = AppState::new();
    let handle = match request_handler(&mut state, 10, 15_000) {
        PollReply::Wait { handle, remaining_ms } => {
            assert_eq!(remaining_ms, 14_990);
            handle
        }
        other => panic!("expected wait, got {:?}", other),
    };
    assert!(!state.has_changed(handle));
    state.enqueue(run_code("a"), 1, 0);
    assert!(state.has_changed(handle));
}

#[test]
fn scenario_stale_result_is_unknown_command() {
    let mut state: AppState<Tx> = AppState::new();
    let (tx, _rx) = pair();
    state.enqueue(run_code("a"), 1, tx);
    let stale = RunCommandResponse { id: 0xdead_beef, response: "x".to_string() };
    let report = response_handler(&mut state, stale).unwrap_err();
    assert_eq!(report.kind, ErrorKind::UnknownCommand);
    assert_eq!(report.status_code(), 404);
    assert!(state.is_pending(1));
    assert_eq!(state.queue_len(), 1);
}

#[test]
fn proxy_needs_an_identifier() {
    let mut state: AppState<u8> = AppState::new();
    let report =
        proxy_handler(&mut state, ToolArguments { args: run_code("a"), id: None }, 0).unwrap_err();
    assert_eq!(report.kind, ErrorKind::MissingIdentifier);
    assert_eq!(report.message(), "Got proxy command with no id");
    assert_eq!(report.status_code(), 500);
    assert_eq!(state.queue_len(), 0);
    assert_eq!(state.pending_len(), 0);
    assert_eq!(state.register_waiter(), 0);
}

#[test]
fn proxy_enqueues_like_a_local_command() {
    let mut state: AppState<u8> = AppState::new();
    let command = ToolArguments { args: run_code("a"), id: Some(44) };
    assert_eq!(proxy_handler(&mut state, command.clone(), 3), Ok(44));
    assert!(state.is_pending(44));
    assert_eq!(state.register_waiter(), 1);
    assert_eq!(request_handler(&mut state, 0, 15_000), PollReply::Work(command));
}

#[test]
fn proxy_reply_by_what_was_received() {
    let mut state: AppState<u8> = AppState::new();
    state.enqueue(run_code("a"), 44, 3);
    let closed = proxy_reply(&mut state, 44, None).unwrap_err();
    assert_eq!(closed.kind, ErrorKind::ChannelClosed);
    assert_eq!(closed.message(), "Couldn't receive response");
    assert!(state.is_pending(44));
    let failed = proxy_reply(&mut state, 44, Some(Err("boom".to_string()))).unwrap_err();
    assert_eq!(failed, Report { kind: ErrorKind::HostExecution, detail: "boom".to_string() });
    assert!(state.is_pending(44));
    let done = proxy_reply(&mut state, 44, Some(Ok("fine".to_string()))).unwrap();
    assert_eq!(done, RunCommandResponse { response: "fine".to_string(), id: 44 });
    assert!(!state.is_pending(44));
}

#[test]
fn relay_is_transparent() {
    let mut follower: AppState<Tx> = AppState::new();
    let mut owner: AppState<Tx> = AppState::new();
    let (origin_tx, origin_rx) = pair();
    let args = ToolArgumentValues::GetProjectStructure(GetProjectStructure {
        detail: "minimal".to_string(),
        max_depth: Some(3),
        root_path: None,
    });
    let id = begin_tool_run(&mut follower, args.clone(), origin_tx);

    let forwarded = match relay_next(&mut follower) {
        RelayStep::Forward(envelope) => envelope,
        other => panic!("expected a command to forward, got {:?}", other),
    };
    assert_eq!(forwarded, ToolArguments { args: args.clone(), id: Some(id) });

    let (proxy_tx, proxy_rx) = pair();
    assert_eq!(proxy_handler(&mut owner, forwarded.clone(), proxy_tx), Ok(id));
    assert_eq!(request_handler(&mut owner, 0, 15_000), PollReply::Work(forwarded.clone()));
    let posted = RunCommandResponse { id, response: "tree".to_string() };
    send(response_handler(&mut owner, posted).unwrap());
    let reply = proxy_reply(&mut owner, id, proxy_rx.try_recv().ok()).unwrap();
    assert_eq!(reply, RunCommandResponse { response: "tree".to_string(), id });
    assert_eq!(owner.pending_len(), 0);

    let delivery = relay_deliver(&mut follower, forwarded.id, Some(Ok(reply.response)))
        .unwrap()
        .unwrap();
    send(delivery);
    assert!(!follower.is_pending(id));
    let outcome = finish_tool_run(&mut follower, id, origin_rx.try_recv().ok()).unwrap();
    assert_eq!(outcome, ToolOutcome { is_error: false, text: "tree".to_string() });
}

#[test]
fn relay_waits_on_an_empty_queue() {
    let mut state: AppState<u8> = AppState::new();
    assert_eq!(relay_next(&mut state), RelayStep::Wait(0));
    state.enqueue(run_code("a"), 1, 0);
    state.try_dequeue();
    assert_eq!(relay_next(&mut state), RelayStep::Wait(1));
}

#[test]
fn relay_transport_failure_leaves_the_entry() {
    let mut state: AppState<u8> = AppState::new();
    state.enqueue(run_code("a"), 1, 0);
    let step = relay_next(&mut state);
    assert_eq!(step, RelayStep::Forward(ToolArguments { args: run_code("a"), id: Some(1) }));
    assert!(relay_deliver(&mut state, Some(1), None).unwrap().is_none());
    assert!(state.is_pending(1));
    assert!(relay_deliver(&mut state, None, None).unwrap().is_none());
}

#[test]
fn relay_deliver_errors() {
    let mut state: AppState<u8> = AppState::new();
    state.enqueue(run_code("a"), 1, 7);
    let missing = relay_deliver(&mut state, None, Some(Ok("x".to_string()))).unwrap_err();
    assert_eq!(missing.kind, ErrorKind::MissingIdentifier);
    let unknown = relay_deliver(&mut state, Some(2), Some(Ok("x".to_string()))).unwrap_err();
    assert_eq!(unknown.kind, ErrorKind::UnknownCommand);
    assert!(state.is_pending(1));
    let undecodable = relay_deliver(&mut state, Some(1), Some(Err("bad body".to_string())))
        .unwrap()
        .unwrap();
    assert_eq!(undecodable.channel, 7);
    assert_eq!(undecodable.result, Err("bad body".to_string()));
    assert!(!state.is_pending(1));
}

#[test]
fn host_failure_is_a_tool_level_error() {
    assert_eq!(
        tool_outcome(Err("script threw".to_string())),
        ToolOutcome { is_error: true, text: "script threw".to_string() }
    );
    assert_eq!(
        tool_outcome(Ok("42".to_string())),
        ToolOutcome { is_error: false, text: "42".to_string() }
    );
    let mut state: AppState<u8> = AppState::new();
    state.enqueue(run_code("a"), 1, 0);
    let outcome = finish_tool_run(&mut state, 1, Some(Err("script threw".to_string()))).unwrap();
    assert!(outcome.is_error);
    assert!(!state.is_pending(1));
}

#[test]
fn closed_channel_ends_the_tool_call_with_an_error() {
    let mut state: AppState<u8> = AppState::new();
    state.enqueue(run_code("a"), 1, 0);
    let report = finish_tool_run(&mut state, 1, None).unwrap_err();
    assert_eq!(report.kind, ErrorKind::ChannelClosed);
    assert!(!state.is_pending(1));
    assert_eq!(state.queue_len(), 1);
}

#[test]
fn relay_turns_follow_the_events() {
    let mut state: AppState<u8> = AppState::new();
    let idle = dud_proxy_loop(&mut state, false, RelayEvent::Idle);
    assert!(matches!(idle.outcome, Ok(None)));
    assert_eq!(idle.next, RelayStep::Wait(0));

    state.enqueue(run_code("a"), 1, 7);
    state.enqueue(run_code("b"), 2, 8);
    let first = dud_proxy_loop(&mut state, false, RelayEvent::Idle);
    assert!(matches!(first.outcome, Ok(None)));
    assert_eq!(
        first.next,
        RelayStep::Forward(ToolArguments { args: run_code("a"), id: Some(1) })
    );

    let answered = RelayEvent::Replied { id: Some(1), result: Ok("done".to_string()) };
    let second = dud_proxy_loop(&mut state, false, answered);
    let delivery = second.outcome.unwrap().unwrap();
    assert_eq!(delivery.channel, 7);
    assert_eq!(delivery.result, Ok("done".to_string()));
    assert!(!state.is_pending(1));
    assert_eq!(
        second.next,
        RelayStep::Forward(ToolArguments { args: run_code("b"), id: Some(2) })
    );

    let third = dud_proxy_loop(&mut state, false, RelayEvent::Unreachable);
    assert!(matches!(third.outcome, Ok(None)));
    assert!(state.is_pending(2));
    assert_eq!(third.next, RelayStep::Wait(2));

    let again = RelayEvent::Replied { id: Some(1), result: Ok("done".to_string()) };
    let fourth = dud_proxy_loop(&mut state, false, again);
    assert_eq!(fourth.outcome.unwrap_err().kind, ErrorKind::UnknownCommand);

    let nameless = RelayEvent::Replied { id: None, result: Ok("done".to_string()) };
    let fifth = dud_proxy_loop(&mut state, false, nameless);
    assert_eq!(fifth.outcome.unwrap_err().kind, ErrorKind::MissingIdentifier);
}

#[test]
fn relay_stops_when_asked() {
    let mut state: AppState<u8> = AppState::new();
    state.enqueue(run_code("a"), 1, 7);
    let answered = RelayEvent::Replied { id: Some(1), result: Err("bad body".to_string()) };
    let turn = dud_proxy_loop(&mut state, true, answered);
    assert_eq!(turn.next, RelayStep::Stop);
    assert_eq!(turn.outcome.unwrap().unwrap().result, Err("bad body".to_string()));
    assert_eq!(state.queue_len(), 1);
    assert!(!state.is_pending(1));
}

#[test]
fn builders_make_the_four_commands() {
    assert_eq!(ToolArgumentValues::run_code("x".to_string()), run_code("x"));
    assert_eq!(ToolArgumentValues::delete_part("Door".to_string()), delete_part("Door"));
    assert_eq!(
        ToolArgumentValues::insert_model("tree".to_string()),
        ToolArgumentValues::InsertModel(InsertModel { query: "tree".to_string() })
    );
    assert_eq!(
        ToolArgumentValues::get_project_structure(
            "detailed".to_string(),
            None,
            Some("Workspace.Model1".to_string())
        ),
        ToolArgumentValues::GetProjectStructure(GetProjectStructure {
            detail: "detailed".to_string(),
            max_depth: None,
            root_path: Some("Workspace.Model1".to_string()),
        })
    );
}

#[test]
fn reports_and_their_responses() {
    let unknown = Report::unknown_command();
    assert_eq!(unknown.kind, ErrorKind::UnknownCommand);
    assert_eq!(unknown.message(), "Unknown ID");
    assert_eq!(unknown.status_code(), 404);
    assert_eq!(unknown.body(), "Something went wrong");
    let closed = Report::channel_closed();
    assert_eq!(closed.status_code(), 500);
    assert_eq!(closed.body(), "Something went wrong");
    let host = Report::host_execution("boom".to_string());
    assert_eq!(host.kind, ErrorKind::HostExecution);
    assert_eq!(host.message(), "boom");
    assert_eq!(host.status_code(), 500);
    assert_eq!(Report::missing_identifier().status_code(), 500);
}

#[test]
fn constants_of_the_deployment() {
    assert_eq!(STUDIO_PLUGIN_PORT, 44755);
    assert_eq!(LONG_POLL_DURATION_MS, 15_000);
    assert_eq!(STATUS_OK, 200);
    assert_eq!(STATUS_NO_WORK, 423);
    assert_eq!(
        server_instructions(),
        "User run_command to query data from Roblox Studio place or to change it"
    );
}

#[test]
fn change_counter_wraps_round() {
    let mut state: AppState<u8> = AppState::new();
    for k in 0..5u128 {
        state.enqueue(run_code("a"), k, 0);
    }
    assert_eq!(state.register_waiter(), 5);
    assert!(state.has_changed(4));
    assert!(!state.has_changed(5));
}
