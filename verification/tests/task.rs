use pyinputcapture::activation::{
    activation_writes, generation_writes, ActivatedBarrier, Activation,
};
use pyinputcapture::session::{BarrierSpec, SessionState};
use pyinputcapture::setup::{SetupReport, SetupResult};
use pyinputcapture::task::{Cmd, Effect, Event, PortalTask, Purpose, Phase, Request, Turn};
use tokio::sync::{mpsc, oneshot};

type Reply = oneshot::Sender<Result<(), String>>;
type MapReply = oneshot::Sender<Result<Vec<(u32, String)>, String>>;
type Command = Cmd<Reply, MapReply, f64>;

// A task whose handles are plain numbers.
type Task = PortalTask<u8, u8, u8>;
type TaskEvent = Event<u8, u8, f64>;
type TaskTurn = Turn<u8, u8, u8, f64>;

fn step(task: &mut Task, state: &mut SessionState, event: TaskEvent) -> TaskTurn {
    assert!(task.admits(state, &event), "{event:?} in {task:?}");
    task.on_event(state, event)
}

fn command(cmd: Cmd<u8, u8, f64>, activation_id: u32) -> TaskEvent {
    Event::Command { cmd, activation_id }
}

fn listening() -> Task {
    PortalTask {
        report: SetupReport { slot: None },
        spec: BarrierSpec::Edges(Some(vec!["left".to_string()])),
        phase: Phase::Listening,
    }
}

fn screen() -> SessionState {
    SessionState {
        zones: vec![(1920, 1080, 0, 0)],
        barrier_map: vec![(1, "left".to_string())],
        zone_set: 3,
    }
}

/// Runs a setup, failing at a named step or not at all, and reports it like the portal task does.
fn run_setup(
    setup_tx: oneshot::Sender<Result<SetupResult, String>>,
    fail_at_step: Option<&str>,
) -> (PortalTask<oneshot::Sender<Result<SetupResult, String>>, u8, u8>, Result<(), String>) {
    let mut state = SessionState::default();
    let (mut task, mut turn): (_, Turn<_, u8, u8, f64>) =
        PortalTask::start(setup_tx, Some(vec!["left".to_string()]));
    loop {
        if let Some(Effect::ReportFailure { to, reason }) = turn.effect {
            to.send(Err(reason)).unwrap();
        }
        let event = match turn.request {
            Request::Connect => Event::Done,
            Request::CreateSession(_) if fail_at_step == Some("create_session") => {
                Event::Failed("boom".to_string())
            }
            Request::CreateSession(kinds) => {
                assert!(kinds.keyboard && kinds.pointer && kinds.touchscreen);
                Event::Done
            }
            Request::ReadZones => Event::Zones { zones: vec![(1920, 1080, 0, 0)], zone_set: 1 },
            Request::SetBarriers { .. } => Event::BarriersSet { failed: vec![] },
            Request::ConnectEis => Event::EisConnected { raw_fd: 7 },
            Request::ReportSetup { to, result } => {
                to.send(Ok(result)).unwrap();
                Event::Done
            }
            Request::SubscribeActivated | Request::SubscribeZonesChanged => Event::Done,
            Request::NextEvent => return (task, Ok(())),
            Request::CloseSession => Event::Done,
            Request::Finish { result } => return (task, result),
            other => panic!("unexpected {other:?}"),
        };
        assert!(task.admits(&state, &event));
        turn = task.on_event(&mut state, event);
    }
}

#[test]
fn setup_failure_reports_the_real_reason() {
    let (tx, rx) = oneshot::channel();
    assert!(run_setup(tx, Some("create_session")).1.is_err());

    // Not a bare channel-closed: the cause survives the hop to the caller.
    let err = rx.blocking_recv().expect("sender must not be dropped unsent");
    assert_eq!(err.unwrap_err(), "create_session: boom");
}

#[test]
fn setup_success_delivers_the_result() {
    let (tx, rx) = oneshot::channel();
    assert!(run_setup(tx, None).1.is_ok());

    let result = rx.blocking_recv().unwrap().unwrap();
    assert_eq!(result.eis_raw_fd, 7);
    assert_eq!(result.zones, vec![(1920, 1080, 0, 0)]);
    assert_eq!(result.barrier_map, vec![(1, "left".to_string())]);
}

#[test]
fn setup_is_reported_exactly_once() {
    // A failure after the session was handed over must not try to send a second time.
    let (tx, rx) = oneshot::channel();
    let (task, _) = run_setup(tx, None);
    assert!(task.report.slot.is_none(), "the sender is consumed by the success path");

    assert!(rx.blocking_recv().unwrap().is_ok());
}

#[test]
fn cmd_channel_enable_disable() {
    let (cmd_tx, mut cmd_rx) = mpsc::channel::<Command>(4);

    let (reply_tx, reply_rx) = oneshot::channel();
    cmd_tx.blocking_send(Cmd::Enable(reply_tx)).unwrap();

    if let Some(Cmd::Enable(reply)) = cmd_rx.blocking_recv() {
        reply.send(Ok(())).unwrap();
    } else {
        panic!("expected Enable");
    }

    assert!(reply_rx.blocking_recv().unwrap().is_ok());
}

#[test]
fn cmd_channel_release_with_position() {
    let (cmd_tx, mut cmd_rx) = mpsc::channel::<Command>(4);

    let (reply_tx, reply_rx) = oneshot::channel();
    cmd_tx
        .blocking_send(Cmd::Release { cursor_position: Some((960.0, 540.0)), reply: reply_tx })
        .unwrap();

    if let Some(Cmd::Release { cursor_position, reply }) = cmd_rx.blocking_recv() {
        assert_eq!(cursor_position, Some((960.0, 540.0)));
        reply.send(Ok(())).unwrap();
    } else {
        panic!("expected Release");
    }

    assert!(reply_rx.blocking_recv().unwrap().is_ok());
}

#[test]
fn cmd_channel_release_without_position() {
    let (cmd_tx, mut cmd_rx) = mpsc::channel::<Command>(4);

    let (reply_tx, reply_rx) = oneshot::channel();
    cmd_tx.blocking_send(Cmd::Release { cursor_position: None, reply: reply_tx }).unwrap();

    if let Some(Cmd::Release { cursor_position, reply }) = cmd_rx.blocking_recv() {
        assert!(cursor_position.is_none());
        reply.send(Ok(())).unwrap();
    } else {
        panic!("expected Release");
    }

    assert!(reply_rx.blocking_recv().unwrap().is_ok());
}

#[test]
fn cmd_channel_close() {
    let (cmd_tx, mut cmd_rx) = mpsc::channel::<Command>(4);

    cmd_tx.blocking_send(Cmd::Close).unwrap();

    match cmd_rx.blocking_recv() {
        Some(Cmd::Close) => {}
        _ => panic!("expected Close"),
    }
}

#[test]
fn cmd_reply_error_propagates() {
    let mut task: PortalTask<u8, Reply, MapReply> = PortalTask {
        report: SetupReport { slot: None },
        spec: BarrierSpec::Edges(None),
        phase: Phase::Listening,
    };
    let mut state = SessionState::default();
    let (cmd_tx, mut cmd_rx) = mpsc::channel::<Command>(4);

    let (reply_tx, reply_rx) = oneshot::channel();
    cmd_tx.blocking_send(Cmd::Disable(reply_tx)).unwrap();

    let cmd = cmd_rx.blocking_recv().unwrap();
    let turn = task.on_event(&mut state, Event::Command { cmd, activation_id: 0 });
    assert!(matches!(turn.request, Request::Disable));
    let failed: Event<Reply, MapReply, f64> = Event::Failed("simulated portal error".to_string());
    let turn = task.on_event(&mut state, failed);
    if let Some(Effect::Reply { to, result }) = turn.effect {
        to.send(result).unwrap();
    }

    let result = reply_rx.blocking_recv().unwrap();
    assert!(result.is_err());
    assert_eq!(result.unwrap_err(), "simulated portal error");
}

#[test]
fn every_setup_step_names_itself_when_it_fails() {
    // The events that lead up to each step, then its failure, then the report.
    let boom = || Event::Failed("boom".to_string());
    let rejected = || Event::Rejected("boom".to_string());
    let zones = || Event::Zones { zones: vec![(8, 8, 0, 0)], zone_set: 2 };
    let set = || Event::BarriersSet { failed: vec![] };
    let cases: Vec<(Vec<TaskEvent>, &str, bool)> = vec![
        (vec![boom()], "InputCapture::new: boom", false),
        (vec![Event::Done, boom()], "create_session: boom", false),
        (vec![Event::Done, Event::Done, boom()], "zones request: boom", true),
        (vec![Event::Done, Event::Done, rejected()], "zones response: boom", true),
        (
            vec![Event::Done, Event::Done, zones(), boom()],
            "set_pointer_barriers request: boom",
            true,
        ),
        (
            vec![Event::Done, Event::Done, zones(), rejected()],
            "set_pointer_barriers response: boom",
            true,
        ),
        (vec![Event::Done, Event::Done, zones(), set(), boom()], "connect_to_eis: boom", true),
    ];
    for (events, reason, session_open) in cases {
        let mut state = SessionState::default();
        let (mut task, mut turn): (Task, TaskTurn) = PortalTask::start(42, None);
        assert!(matches!(turn.request, Request::Connect));
        for event in events {
            turn = step(&mut task, &mut state, event);
        }
        if session_open {
            assert!(matches!(turn.request, Request::CloseSession));
            assert_eq!(turn.effect, None);
            turn = step(&mut task, &mut state, Event::Failed("ignored".to_string()));
        }
        assert_eq!(
            turn.effect,
            Some(Effect::ReportFailure { to: 42, reason: reason.to_string() })
        );
        assert!(
            matches!(turn.request, Request::Finish { result: Err(e) } if e == reason),
            "{reason}"
        );
        assert!(matches!(task.phase, Phase::Finished));
    }
}

#[test]
fn failures_after_the_report_are_not_reported_again() {
    for (events, reason) in [
        (vec![Event::Failed("x".to_string())], "receive_activated: x"),
        (vec![Event::Done, Event::Failed("x".to_string())], "receive_zones_changed: x"),
    ] {
        let mut state = screen();
        let mut task = listening();
        task.phase = Phase::SubscribingActivated;
        let mut turn = None;
        for event in events {
            turn = Some(step(&mut task, &mut state, event));
        }
        assert!(matches!(turn.unwrap().request, Request::CloseSession));
        let turn = step(&mut task, &mut state, Event::Done);
        assert_eq!(turn.effect, None);
        assert!(matches!(turn.request, Request::Finish { result: Err(e) } if e == reason));
    }
}

#[test]
fn a_connection_that_nobody_takes_is_closed() {
    let mut state = screen();
    let (mut task, _): (Task, TaskTurn) = PortalTask::start(1, None);
    task.phase = Phase::ConnectingEis { barrier_map: vec![(1, "top".to_string())] };
    let turn = step(&mut task, &mut state, Event::EisConnected { raw_fd: 31 });
    match turn.request {
        Request::ReportSetup { to, result } => {
            assert_eq!(to, 1);
            assert_eq!(
                result,
                SetupResult {
                    zones: vec![(1920, 1080, 0, 0)],
                    eis_raw_fd: 31,
                    barrier_map: vec![(1, "top".to_string())],
                }
            );
        }
        other => panic!("unexpected {other:?}"),
    }
    let turn = step(&mut task, &mut state, Event::Unclaimed);
    assert_eq!(turn.effect, Some(Effect::CloseFd(31)));
    assert!(matches!(turn.request, Request::CloseSession));
    let turn = step(&mut task, &mut state, Event::Done);
    assert_eq!(turn.effect, None);
    assert!(matches!(
        turn.request,
        Request::Finish { result: Err(e) } if e == "setup result channel closed"
    ));
}

#[test]
fn a_second_setup_report_is_refused() {
    let mut state = screen();
    let mut task = listening();
    task.phase = Phase::ConnectingEis { barrier_map: vec![] };
    let turn = step(&mut task, &mut state, Event::EisConnected { raw_fd: 9 });
    assert_eq!(turn.effect, Some(Effect::CloseFd(9)));
    let turn = step(&mut task, &mut state, Event::Done);
    assert!(matches!(
        turn.request,
        Request::Finish { result: Err(e) } if e == "setup already reported"
    ));
}

#[test]
fn activations_are_published() {
    let mut state = screen();
    let mut task = listening();
    let a = Activation {
        activation_id: Some(4),
        barrier_id: Some(ActivatedBarrier::Barrier(1)),
        cursor_position: None,
    };
    let turn = step(&mut task, &mut state, Event::Activated(a));
    assert_eq!(turn.effect, Some(Effect::Publish(activation_writes(&a))));
    assert!(matches!(turn.request, Request::NextEvent));
}

#[test]
fn calls_are_answered_on_their_own_handle() {
    let mut state = screen();
    let mut task = listening();
    let turn = step(&mut task, &mut state, command(Cmd::Enable(11), 0));
    assert!(matches!(turn.request, Request::Enable));
    let turn = step(&mut task, &mut state, Event::Done);
    assert_eq!(turn.effect, Some(Effect::Reply { to: 11, result: Ok(()) }));

    let turn = step(&mut task, &mut state, command(Cmd::Disable(12), 0));
    assert!(matches!(turn.request, Request::Disable));
    let turn = step(&mut task, &mut state, Event::Failed("no".to_string()));
    assert_eq!(turn.effect, Some(Effect::Reply { to: 12, result: Err("no".to_string()) }));
    assert!(matches!(task.phase, Phase::Listening));
}

#[test]
fn a_release_names_the_activation_and_the_cursor() {
    for (activation_id, named) in [(0, None), (6, Some(6))] {
        let mut state = screen();
        let mut task = listening();
        let cmd = Cmd::Release { cursor_position: Some((1.5, 2.5)), reply: 13 };
        let turn = step(&mut task, &mut state, command(cmd, activation_id));
        match turn.request {
            Request::Release { activation_id, cursor_position } => {
                assert_eq!(activation_id, named);
                assert_eq!(cursor_position, Some((1.5, 2.5)));
            }
            other => panic!("unexpected {other:?}"),
        }
        let turn = step(&mut task, &mut state, Event::Done);
        assert_eq!(turn.effect, Some(Effect::Reply { to: 13, result: Ok(()) }));
    }
}

#[test]
fn an_armed_request_replaces_the_one_in_force() {
    let mut state = screen();
    let mut task = listening();
    let wanted = || BarrierSpec::Edges(Some(vec!["top".to_string(), "right".to_string()]));
    let cmd = Cmd::SetBarriers { spec: wanted(), reply: 21 };
    let turn = step(&mut task, &mut state, command(cmd, 0));
    match turn.request {
        Request::SetBarriers { barriers, zone_set } => {
            assert_eq!(zone_set, 3);
            assert_eq!(
                format!("{barriers:?}"),
                "[Barrier { barrier_id: 1, position: (0, 0, 1919, 0) }, \
                 Barrier { barrier_id: 2, position: (1920, 0, 1920, 1079) }]"
            );
        }
        other => panic!("unexpected {other:?}"),
    }
    // Nothing is in force before the portal has answered.
    assert_eq!(task.spec, BarrierSpec::Edges(Some(vec!["left".to_string()])));
    assert_eq!(state.barrier_map, vec![(1, "left".to_string())]);
    let turn = step(&mut task, &mut state, Event::BarriersSet { failed: vec![1] });
    let armed = vec![(2, "right".to_string())];
    assert_eq!(turn.effect, Some(Effect::ReplyMap { to: 21, result: Ok(armed.clone()) }));
    assert_eq!(state.barrier_map, armed);
    assert_eq!(task.spec, wanted());
}

#[test]
fn a_failed_request_is_forgotten() {
    for (event, reason) in [
        (Event::Failed("x".to_string()), "set_pointer_barriers request: x"),
        (Event::Rejected("x".to_string()), "set_pointer_barriers response: x"),
    ] {
        let mut state = screen();
        let mut task = listening();
        let cmd = Cmd::SetBarriers { spec: BarrierSpec::Edges(None), reply: 22 };
        step(&mut task, &mut state, command(cmd, 0));
        let turn = step(&mut task, &mut state, event);
        assert_eq!(
            turn.effect,
            Some(Effect::ReplyMap { to: 22, result: Err(reason.to_string()) })
        );
        assert_eq!(task.spec, BarrierSpec::Edges(Some(vec!["left".to_string()])));
        assert_eq!(state.barrier_map, vec![(1, "left".to_string())]);
    }
}

#[test]
fn changed_zones_are_armed_again() {
    let mut state = screen();
    let mut task = listening();
    let turn = step(&mut task, &mut state, Event::ZonesChanged);
    assert!(matches!(turn.request, Request::ReadZones));
    let zones = vec![(800, 600, 0, 0), (640, 480, 800, 0)];
    let turn =
        step(&mut task, &mut state, Event::Zones { zones: zones.clone(), zone_set: 4 });
    match turn.request {
        Request::SetBarriers { barriers, zone_set } => {
            assert_eq!(zone_set, 4);
            assert_eq!(
                format!("{barriers:?}"),
                "[Barrier { barrier_id: 1, position: (0, 0, 0, 599) }, \
                 Barrier { barrier_id: 2, position: (800, 0, 800, 479) }]"
            );
        }
        other => panic!("unexpected {other:?}"),
    }
    let turn = step(&mut task, &mut state, Event::BarriersSet { failed: vec![2] });
    assert_eq!(turn.effect, Some(Effect::Publish(generation_writes())));
    assert!(matches!(turn.request, Request::NextEvent));
    assert_eq!(state.zones, zones);
    assert_eq!(state.zone_set, 4);
    assert_eq!(state.barrier_map, vec![(1, "left".to_string())]);
}

#[test]
fn a_failed_refresh_is_survived() {
    let prefix = "pyinputcapture: zones changed but re-arming failed: ";
    for (event, reason) in [
        (Event::Failed("x".to_string()), "zones request: x"),
        (Event::Rejected("x".to_string()), "zones response: x"),
    ] {
        let mut state = screen();
        let mut task = listening();
        step(&mut task, &mut state, Event::ZonesChanged);
        let turn = step(&mut task, &mut state, event);
        assert_eq!(turn.effect, Some(Effect::Log(format!("{prefix}{reason}"))));
        assert!(matches!(task.phase, Phase::Listening));
        assert_eq!(state.zone_set, 3);
    }
    for (event, reason) in [
        (Event::Failed("x".to_string()), "set_pointer_barriers request: x"),
        (Event::Rejected("x".to_string()), "set_pointer_barriers response: x"),
    ] {
        let mut state = screen();
        let mut task = listening();
        step(&mut task, &mut state, Event::ZonesChanged);
        step(&mut task, &mut state, Event::Zones { zones: vec![], zone_set: 5 });
        assert!(matches!(task.phase, Phase::Arming { purpose: Purpose::Refresh, .. }));
        let turn = step(&mut task, &mut state, event);
        assert_eq!(turn.effect, Some(Effect::Log(format!("{prefix}{reason}"))));
        assert_eq!(state.zone_set, 5);
        assert_eq!(state.barrier_map, vec![(1, "left".to_string())]);
    }
}

#[test]
fn closing_disables_closes_and_ends() {
    for end in [command(Cmd::Close, 0), Event::CommandsClosed] {
        let mut state = screen();
        let mut task = listening();
        let turn = step(&mut task, &mut state, end);
        assert!(matches!(turn.request, Request::Disable));
        let turn = step(&mut task, &mut state, Event::Failed("ignored".to_string()));
        assert!(matches!(turn.request, Request::CloseSession));
        let turn = step(&mut task, &mut state, Event::Done);
        assert_eq!(turn.effect, None);
        assert!(matches!(turn.request, Request::Finish { result: Ok(()) }));
    }
}

#[test]
fn events_that_answer_nothing_are_not_admitted() {
    let state = screen();
    let task = listening();
    let stray: Vec<TaskEvent> = vec![
        Event::Done,
        Event::Unclaimed,
        Event::Failed(String::new()),
        Event::EisConnected { raw_fd: 1 },
        Event::Zones { zones: vec![], zone_set: 0 },
        Event::BarriersSet { failed: vec![] },
    ];
    for event in &stray {
        assert!(!task.admits(&state, event), "{event:?}");
    }
    assert!(task.admits::<f64>(&state, &Event::ZonesChanged));

    let mut reading = listening();
    reading.phase = Phase::ReadingZones { refresh: true };
    let fits: TaskEvent = Event::Zones { zones: vec![(1, 1, 0, 0)], zone_set: 0 };
    let overflows: TaskEvent = Event::Zones { zones: vec![(1, 1, i32::MAX, 0)], zone_set: 0 };
    assert!(reading.admits(&state, &fits));
    assert!(!reading.admits(&state, &overflows));
}
