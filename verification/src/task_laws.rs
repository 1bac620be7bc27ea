//! What holds of the portal task over one step, a few steps, or a whole run.

use crate::activation::{generation_write_seq, SharedWrite};
use crate::barriers::{barrier_labels, portal_barriers, Zone};
use crate::session::{armed, requested_lines, SessionView, SpecView};
use crate::task::{
    admissible, awaits, initial, next, CmdView, EffectView, EventView, PhaseView, PurposeView,
    RequestView, TaskView, TurnView,
};
use vstd::prelude::*;

verus! {

// ---------------------------------------------------------------------------------------------
// Runs
// ---------------------------------------------------------------------------------------------
/// What a step is handed: what the session knows at that moment, and the event.
pub ghost struct Input<U, M, P> {
    pub session: SessionView,
    pub event: EventView<U, M, P>,
}

/// The task after a list of inputs.
pub open spec fn task_after<S, U, M, P>(
    task: TaskView<S, U, M>,
    inputs: Seq<Input<U, M, P>>,
) -> TaskView<S, U, M>
    decreases inputs.len(),
{
    if inputs.len() == 0 {
        task
    } else {
        let before = task_after(task, inputs.drop_last());
        next::<S, U, M, P>(before, inputs.last().session, inputs.last().event).task
    }
}

/// Whether every input could be handled when it came.
pub open spec fn is_run<S, U, M, P>(
    task: TaskView<S, U, M>,
    inputs: Seq<Input<U, M, P>>,
) -> bool
    decreases inputs.len(),
{
    inputs.len() > 0 ==> {
        &&& is_run(task, inputs.drop_last())
        &&& admissible(
            task_after(task, inputs.drop_last()),
            inputs.last().session,
            inputs.last().event,
        )
    }
}

/// How often a turn tells whoever waits for the setup how it went.
pub open spec fn reports<S, U, M, P>(turn: TurnView<S, U, M, P>) -> nat {
    (if turn.request is ReportSetup {
        1nat
    } else {
        0nat
    }) + (if turn.effect matches Some(e) && e is ReportFailure {
        1nat
    } else {
        0nat
    })
}

/// How often a run reports the setup.
pub open spec fn reports_in<S, U, M, P>(
    task: TaskView<S, U, M>,
    inputs: Seq<Input<U, M, P>>,
) -> nat
    decreases inputs.len(),
{
    if inputs.len() == 0 {
        0
    } else {
        let before = task_after(task, inputs.drop_last());
        reports_in(task, inputs.drop_last()) + reports(
            next::<S, U, M, P>(before, inputs.last().session, inputs.last().event).turn,
        )
    }
}

/// How many reports are still owed.
pub open spec fn owed<S, U, M>(task: TaskView<S, U, M>) -> nat {
    if task.report is Some {
        1
    } else {
        0
    }
}

/// Whether the caller has not heard of the setup yet in this phase.
pub open spec fn is_setup_phase<U, M>(phase: PhaseView<U, M>) -> bool {
    match phase {
        PhaseView::Connecting
        | PhaseView::CreatingSession
        | PhaseView::ReadingZones { refresh: false }
        | PhaseView::Arming { purpose: PurposeView::Setup, .. }
        | PhaseView::ConnectingEis { .. } => true,
        _ => false,
    }
}

/// A task is in order if the report is owed during the setup and settled afterwards; only a
/// failed task that is closing its session may still owe it.
pub open spec fn in_order<S, U, M>(task: TaskView<S, U, M>) -> bool {
    match task.phase {
        PhaseView::Closing { result: Err(_) } => true,
        _ => task.report is Some <==> is_setup_phase(task.phase),
    }
}

/// Whether a session is open on the portal's side.
pub open spec fn is_open<U, M>(phase: PhaseView<U, M>) -> bool {
    !(phase is Connecting || phase is CreatingSession || phase is Finished)
}

/// Whether a session is open that nobody has asked to close.
pub open spec fn close_owed<U, M>(phase: PhaseView<U, M>) -> nat {
    if is_open(phase) && !(phase is Closing) {
        1
    } else {
        0
    }
}

/// Whether this input means that the portal has opened a session.
pub open spec fn opens<S, U, M, P>(task: TaskView<S, U, M>, event: EventView<U, M, P>) -> nat {
    if task.phase is CreatingSession && event is Done {
        1
    } else {
        0
    }
}

/// Whether this turn closes the session.
pub open spec fn closes<S, U, M, P>(turn: TurnView<S, U, M, P>) -> nat {
    if turn.request is CloseSession {
        1
    } else {
        0
    }
}

/// How many sessions a run opens.
pub open spec fn opens_in<S, U, M, P>(
    task: TaskView<S, U, M>,
    inputs: Seq<Input<U, M, P>>,
) -> nat
    decreases inputs.len(),
{
    if inputs.len() == 0 {
        0
    } else {
        let before = task_after(task, inputs.drop_last());
        opens_in(task, inputs.drop_last()) + opens(before, inputs.last().event)
    }
}

/// How many sessions a run closes.
pub open spec fn closes_in<S, U, M, P>(
    task: TaskView<S, U, M>,
    inputs: Seq<Input<U, M, P>>,
) -> nat
    decreases inputs.len(),
{
    if inputs.len() == 0 {
        0
    } else {
        let before = task_after(task, inputs.drop_last());
        closes_in(task, inputs.drop_last()) + closes(
            next::<S, U, M, P>(before, inputs.last().session, inputs.last().event).turn,
        )
    }
}

/// Which events can come of a request.
pub open spec fn answers<S, U, M, P>(
    request: RequestView<S, P>,
    event: EventView<U, M, P>,
) -> bool {
    match request {
        RequestView::Connect
        | RequestView::CreateSession(_)
        | RequestView::SubscribeActivated
        | RequestView::SubscribeZonesChanged
        | RequestView::Enable
        | RequestView::Disable
        | RequestView::Release { .. }
        | RequestView::CloseSession => event is Done || event is Failed,
        RequestView::ReadZones => event is Zones || event is Failed || event is Rejected,
        RequestView::SetBarriers { .. } => event is BarriersSet || event is Failed
            || event is Rejected,
        RequestView::ConnectEis => event is EisConnected || event is Failed,
        RequestView::ReportSetup { .. } => event is Done || event is Unclaimed,
        RequestView::NextEvent => event is Activated || event is ZonesChanged || event is Command
            || event is CommandsClosed,
        RequestView::Finish { .. } => false,
    }
}

/// A task waits for exactly what can come of its last request, and only a task that is over
/// waits for nothing.
pub proof fn law_requests_and_phases_agree<S, U, M, P>(
    task: TaskView<S, U, M>,
    session: SessionView,
    event: EventView<U, M, P>,
)
    requires
        admissible(task, session, event),
    ensures
        ({
            let step = next::<S, U, M, P>(task, session, event);
            &&& forall|e: EventView<U, M, P>|
                answers(step.turn.request, e) == awaits(step.task.phase, e)
            &&& step.turn.request is Finish <==> step.task.phase is Finished
        }),
{
}

// ---------------------------------------------------------------------------------------------
// The setup is reported
// ---------------------------------------------------------------------------------------------
/// A task stays in order.
pub proof fn law_order_is_kept<S, U, M, P>(
    task: TaskView<S, U, M>,
    session: SessionView,
    event: EventView<U, M, P>,
)
    requires
        in_order(task),
        admissible(task, session, event),
    ensures
        in_order(next::<S, U, M, P>(task, session, event).task),
{
}

/// A step neither loses nor repeats the report: what was owed is still owed to the same sender,
/// or was just told to it.
pub proof fn law_report_is_not_lost<S, U, M, P>(
    task: TaskView<S, U, M>,
    session: SessionView,
    event: EventView<U, M, P>,
)
    requires
        admissible(task, session, event),
    ensures
        ({
            let step = next::<S, U, M, P>(task, session, event);
            &&& owed(task) == owed(step.task) + reports(step.turn)
            &&& step.task.report is Some ==> step.task.report == task.report
            &&& step.turn.request matches RequestView::ReportSetup { to, .. } ==> task.report
                == Some(to)
            &&& step.turn.effect matches Some(EffectView::ReportFailure { to, .. })
                ==> task.report == Some(to)
        }),
{
}

/// Whoever waits for a setup hears of it at most once, and exactly once by the time the task is
/// over, whatever happens in between.
pub proof fn law_setup_is_reported_exactly_once<S, U, M, P>(
    sender: S,
    spec: SpecView,
    inputs: Seq<Input<U, M, P>>,
)
    requires
        is_run(initial::<S, U, M>(sender, spec), inputs),
    ensures
        ({
            let start = initial::<S, U, M>(sender, spec);
            let end = task_after(start, inputs);
            &&& in_order(end)
            &&& reports_in(start, inputs) + owed(end) == 1
            &&& end.phase is Finished ==> reports_in(start, inputs) == 1
        }),
    decreases inputs.len(),
{
    if inputs.len() > 0 {
        let start = initial::<S, U, M>(sender, spec);
        law_setup_is_reported_exactly_once(sender, spec, inputs.drop_last());
        let before = task_after(start, inputs.drop_last());
        let last = inputs.last();
        law_order_is_kept::<S, U, M, P>(before, last.session, last.event);
        law_report_is_not_lost::<S, U, M, P>(before, last.session, last.event);
    }
}

/// The reason that a failing setup step gives: the name of the step, and what was said.
pub open spec fn setup_failure<U, M, P>(
    phase: PhaseView<U, M>,
    event: EventView<U, M, P>,
) -> Option<Seq<char>> {
    match (phase, event) {
        (PhaseView::Connecting, EventView::Failed(e)) => Some("InputCapture::new: "@ + e),
        (PhaseView::CreatingSession, EventView::Failed(e)) => Some("create_session: "@ + e),
        (PhaseView::ReadingZones { refresh: false }, EventView::Failed(e)) => Some(
            "zones request: "@ + e,
        ),
        (PhaseView::ReadingZones { refresh: false }, EventView::Rejected(e)) => Some(
            "zones response: "@ + e,
        ),
        (
            PhaseView::Arming { purpose: PurposeView::Setup, .. },
            EventView::Failed(e),
        ) => Some("set_pointer_barriers request: "@ + e),
        (
            PhaseView::Arming { purpose: PurposeView::Setup, .. },
            EventView::Rejected(e),
        ) => Some("set_pointer_barriers response: "@ + e),
        (PhaseView::ConnectingEis { .. }, EventView::Failed(e)) => Some("connect_to_eis: "@ + e),
        _ => None,
    }
}

/// A setup that fails tells whoever waits for it the real reason: at once where there is no
/// session yet, and as soon as the session is closed otherwise, whether or not closing works.
pub proof fn law_setup_failure_reports_the_real_reason<S, U, M, P>(
    task: TaskView<S, U, M>,
    sender: S,
    session: SessionView,
    event: EventView<U, M, P>,
    later: Input<U, M, P>,
)
    requires
        task.report == Some(sender),
        admissible(task, session, event),
        setup_failure(task.phase, event) is Some,
        ({
            let step = next::<S, U, M, P>(task, session, event);
            step.task.phase is Finished || admissible(step.task, later.session, later.event)
        }),
    ensures
        ({
            let reason = setup_failure(task.phase, event)->0;
            let first = next::<S, U, M, P>(task, session, event);
            let told = Some(EffectView::<S, U, M>::ReportFailure { to: sender, reason });
            let over = RequestView::<S, P>::Finish { result: Err(reason) };
            if is_open(task.phase) {
                let second = next::<S, U, M, P>(first.task, later.session, later.event);
                &&& first.turn == (TurnView::<S, U, M, P> {
                    effect: None,
                    request: RequestView::CloseSession,
                })
                &&& second.turn == (TurnView { effect: told, request: over })
                &&& second.task.phase is Finished
            } else {
                &&& first.turn == (TurnView { effect: told, request: over })
                &&& first.task.phase is Finished
            }
        }),
{
}

/// A setup that succeeds hands over the zones that the session knows, the connection, and the
/// barriers that were accepted; only then are signals subscribed to.
pub proof fn law_setup_success_delivers_the_result<S, U, M, P>(
    task: TaskView<S, U, M>,
    sender: S,
    session: SessionView,
    raw_fd: i32,
    later: SessionView,
)
    requires
        task.report == Some(sender),
        task.phase is ConnectingEis,
    ensures
        ({
            let first = next::<S, U, M, P>(task, session, EventView::EisConnected { raw_fd });
            let second = next::<S, U, M, P>(first.task, later, EventView::Done);
            &&& first.turn.request matches RequestView::ReportSetup { to, result }
            &&& to == sender
            &&& result.zones == session.zones
            &&& result.eis_raw_fd == raw_fd
            &&& result.barrier_map == task.phase->ConnectingEis_barrier_map
            &&& second.turn.request is SubscribeActivated
        }),
{
}

// ---------------------------------------------------------------------------------------------
// Nothing is left behind
// ---------------------------------------------------------------------------------------------
/// A step that opens a session leaves it to be closed, and what was to be closed stays so until
/// a turn closes it.
pub proof fn law_open_sessions_are_remembered<S, U, M, P>(
    task: TaskView<S, U, M>,
    session: SessionView,
    event: EventView<U, M, P>,
)
    requires
        admissible(task, session, event),
    ensures
        ({
            let step = next::<S, U, M, P>(task, session, event);
            close_owed(task.phase) + opens(task, event) == close_owed(step.task.phase) + closes(
                step.turn,
            )
        }),
{
}

/// Every session that was created is closed exactly once before the task is over, however the
/// task ends.
pub proof fn law_sessions_are_closed<S, U, M, P>(
    sender: S,
    spec: SpecView,
    inputs: Seq<Input<U, M, P>>,
)
    requires
        is_run(initial::<S, U, M>(sender, spec), inputs),
    ensures
        ({
            let start = initial::<S, U, M>(sender, spec);
            let end = task_after(start, inputs);
            &&& opens_in(start, inputs) == closes_in(start, inputs) + close_owed(end.phase)
            &&& end.phase is Finished ==> opens_in(start, inputs) == closes_in(start, inputs)
        }),
    decreases inputs.len(),
{
    if inputs.len() > 0 {
        let start = initial::<S, U, M>(sender, spec);
        law_sessions_are_closed(sender, spec, inputs.drop_last());
        let before = task_after(start, inputs.drop_last());
        let last = inputs.last();
        law_open_sessions_are_remembered::<S, U, M, P>(before, last.session, last.event);
    }
}

/// A connection that nobody takes is closed, the session with it, and the task fails.
pub proof fn law_unclaimed_connections_are_closed<S, U, M, P>(
    task: TaskView<S, U, M>,
    session: SessionView,
    raw_fd: i32,
)
    requires
        task.phase == (PhaseView::<U, M>::Reporting { raw_fd }),
    ensures
        ({
            let step = next::<S, U, M, P>(task, session, EventView::Unclaimed);
            &&& step.turn == (TurnView::<S, U, M, P> {
                effect: Some(EffectView::CloseFd(raw_fd)),
                request: RequestView::CloseSession,
            })
            &&& step.task.phase == (PhaseView::<U, M>::Closing {
                result: Err("setup result channel closed"@),
            })
        }),
{
}

/// A connection that was taken is never closed by the task: it closes one only when there was
/// nobody to take it, or no report left to hand it over with.
pub proof fn law_taken_connections_stay_open<S, U, M, P>(
    task: TaskView<S, U, M>,
    session: SessionView,
    event: EventView<U, M, P>,
    raw_fd: i32,
)
    requires
        admissible(task, session, event),
        next::<S, U, M, P>(task, session, event).turn.effect == Some(
            EffectView::<S, U, M>::CloseFd(raw_fd),
        ),
    ensures
        (task.phase == (PhaseView::<U, M>::Reporting { raw_fd }) && event is Unclaimed) || (
        task.phase is ConnectingEis && task.report is None && event == (EventView::<
            U,
            M,
            P,
        >::EisConnected { raw_fd })),
{
}

/// A request to close, or the loss of the command channel, disables the capture, closes the
/// session and ends the task without an error, even where the portal refuses.
pub proof fn law_closing_ends_the_task<S, U, M, P>(
    task: TaskView<S, U, M>,
    session: SessionView,
    event: EventView<U, M, P>,
    second: Input<U, M, P>,
    third: Input<U, M, P>,
)
    requires
        in_order(task),
        task.phase is Listening,
        event is CommandsClosed || (event matches EventView::Command { cmd, .. } && cmd is Close),
        second.event is Done || second.event is Failed,
        third.event is Done || third.event is Failed,
    ensures
        ({
            let a = next::<S, U, M, P>(task, session, event);
            let b = next::<S, U, M, P>(a.task, second.session, second.event);
            let c = next::<S, U, M, P>(b.task, third.session, third.event);
            &&& a.turn == (TurnView::<S, U, M, P> { effect: None, request: RequestView::Disable })
            &&& b.turn == (TurnView::<S, U, M, P> {
                effect: None,
                request: RequestView::CloseSession,
            })
            &&& c.turn == (TurnView::<S, U, M, P> {
                effect: None,
                request: RequestView::Finish { result: Ok(()) },
            })
            &&& c.task.phase is Finished
        }),
{
}

// ---------------------------------------------------------------------------------------------
// Commands are answered
// ---------------------------------------------------------------------------------------------
/// The reply handle of a command that only succeeds or fails.
pub open spec fn call_reply<U, M, P>(cmd: CmdView<U, M, P>) -> Option<U> {
    match cmd {
        CmdView::Enable(reply) => Some(reply),
        CmdView::Disable(reply) => Some(reply),
        CmdView::Release { reply, .. } => Some(reply),
        _ => None,
    }
}

/// Enabling, disabling and releasing make one call to the portal each and answer with its
/// outcome, on the handle that came with the command; nothing else happens in between, and
/// neither the barriers in force nor the session change.
pub proof fn law_calls_are_answered<S, U, M, P>(
    task: TaskView<S, U, M>,
    session: SessionView,
    cmd: CmdView<U, M, P>,
    activation_id: u32,
    answer: Input<U, M, P>,
)
    requires
        task.phase is Listening,
        call_reply(cmd) is Some,
        answer.event is Done || answer.event is Failed,
    ensures
        ({
            let a = next::<S, U, M, P>(
                task,
                session,
                EventView::Command { cmd, activation_id },
            );
            let b = next::<S, U, M, P>(a.task, answer.session, answer.event);
            let result: Result<(), Seq<char>> = match answer.event {
                EventView::Failed(e) => Err(e),
                _ => Ok(()),
            };
            &&& a.turn.effect is None
            &&& match cmd {
                CmdView::Enable(_) => a.turn.request is Enable,
                CmdView::Disable(_) => a.turn.request is Disable,
                _ => a.turn.request is Release,
            }
            &&& b.turn == (TurnView::<S, U, M, P> {
                effect: Some(EffectView::Reply { to: call_reply(cmd)->0, result }),
                request: RequestView::NextEvent,
            })
            &&& b.task == task
            &&& a.session == session
            &&& b.session == answer.session
        }),
{
}

/// A release refers to the current activation, or to none where there was none yet, and hands
/// the cursor position on as it came.
pub proof fn law_release_names_the_activation<S, U, M, P>(
    task: TaskView<S, U, M>,
    session: SessionView,
    cursor_position: Option<(P, P)>,
    reply: U,
    activation_id: u32,
)
    requires
        task.phase is Listening,
    ensures
        next::<S, U, M, P>(
            task,
            session,
            EventView::Command {
                cmd: CmdView::Release { cursor_position, reply },
                activation_id,
            },
        ).turn.request == (RequestView::<S, P>::Release {
            activation_id: if activation_id == 0 {
                None
            } else {
                Some(activation_id)
            },
            cursor_position,
        }),
{
}

/// A request for barriers is answered on its own handle: with the map of the accepted ones,
/// which the session then holds, or with the reason of the failure.
pub proof fn law_barrier_requests_are_answered<S, U, M, P>(
    task: TaskView<S, U, M>,
    session: SessionView,
    spec: SpecView,
    reply: M,
    activation_id: u32,
    answer: Input<U, M, P>,
)
    requires
        task.phase is Listening,
        answer.event is BarriersSet || answer.event is Failed || answer.event is Rejected,
    ensures
        ({
            let lines = requested_lines(spec, session.zones);
            let a = next::<S, U, M, P>(
                task,
                session,
                EventView::Command {
                    cmd: CmdView::SetBarriers { spec, reply },
                    activation_id,
                },
            );
            let b = next::<S, U, M, P>(a.task, answer.session, answer.event);
            let result: Result<Seq<(u32, Seq<char>)>, Seq<char>> = match answer.event {
                EventView::BarriersSet { failed } => Ok(armed(barrier_labels(lines), failed)),
                EventView::Failed(e) => Err("set_pointer_barriers request: "@ + e),
                EventView::Rejected(e) => Err("set_pointer_barriers response: "@ + e),
                _ => Ok(seq![]),
            };
            &&& a.turn == (TurnView::<S, U, M, P> {
                effect: None,
                request: RequestView::SetBarriers {
                    barriers: portal_barriers(lines),
                    zone_set: session.zone_set,
                },
            })
            &&& b.turn == (TurnView::<S, U, M, P> {
                effect: Some(EffectView::ReplyMap { to: reply, result }),
                request: RequestView::NextEvent,
            })
            &&& b.task.phase is Listening
            &&& match result {
                Ok(map) => b.task.spec == spec && b.session == (SessionView {
                    barrier_map: map,
                    ..answer.session
                }),
                Err(_) => b.task == task && b.session == answer.session,
            }
        }),
{
}

/// Nobody is answered who did not ask: a reply always goes to the handle that the task holds.
pub proof fn law_replies_go_to_whoever_asked<S, U, M, P>(
    task: TaskView<S, U, M>,
    session: SessionView,
    event: EventView<U, M, P>,
)
    requires
        admissible(task, session, event),
    ensures
        ({
            let effect = next::<S, U, M, P>(task, session, event).turn.effect;
            &&& effect matches Some(EffectView::Reply { to, .. }) ==> task.phase == (PhaseView::<
                U,
                M,
            >::Calling { reply: to })
            &&& effect matches Some(EffectView::ReplyMap { to, .. }) ==> task.phase matches PhaseView::Arming {
                purpose: PurposeView::Command { reply, .. },
                ..
            } && reply == to
        }),
{
}

// ---------------------------------------------------------------------------------------------
// Barriers follow the zones and the caller
// ---------------------------------------------------------------------------------------------
/// What the caller asked for comes into force only once it is armed: a request that failed is
/// never what a later change of the zones reproduces.
pub proof fn law_failed_requests_are_forgotten<S, U, M, P>(
    task: TaskView<S, U, M>,
    session: SessionView,
    event: EventView<U, M, P>,
)
    requires
        admissible(task, session, event),
        next::<S, U, M, P>(task, session, event).task.spec != task.spec,
    ensures
        event is BarriersSet,
        task.phase matches PhaseView::Arming {
            purpose: PurposeView::Command { spec, .. },
            ..
        } && next::<S, U, M, P>(task, session, event).task.spec == spec,
{
}

/// When the zones change, what the caller last asked for is armed again on the new zones, under
/// the new zone set. Only once the portal has accepted it does the generation move on, and by
/// then the session holds the new zones and the new map.
pub proof fn law_zone_changes_rearm_the_last_request<S, U, M, P>(
    task: TaskView<S, U, M>,
    session: SessionView,
    second: SessionView,
    zones: Seq<Zone>,
    zone_set: u32,
    failed: Seq<u32>,
)
    requires
        task.phase is Listening,
    ensures
        ({
            let lines = requested_lines(task.spec, zones);
            let a = next::<S, U, M, P>(task, session, EventView::ZonesChanged);
            let b = next::<S, U, M, P>(a.task, second, EventView::Zones { zones, zone_set });
            let c = next::<S, U, M, P>(b.task, b.session, EventView::BarriersSet { failed });
            &&& a.turn == (TurnView::<S, U, M, P> {
                effect: None,
                request: RequestView::ReadZones,
            })
            &&& b.turn == (TurnView::<S, U, M, P> {
                effect: None,
                request: RequestView::SetBarriers {
                    barriers: portal_barriers(lines),
                    zone_set,
                },
            })
            &&& c.turn == (TurnView::<S, U, M, P> {
                effect: Some(EffectView::Publish(generation_write_seq())),
                request: RequestView::NextEvent,
            })
            &&& c.task == task
            &&& c.session == (SessionView {
                zones,
                zone_set,
                barrier_map: armed(barrier_labels(lines), failed),
            })
        }),
{
}

/// A refresh that fails is logged and otherwise given up: the session goes on, the barriers in
/// force stay what they were, and the generation does not move.
pub proof fn law_failed_refreshes_are_survived<S, U, M, P>(
    task: TaskView<S, U, M>,
    session: SessionView,
    event: EventView<U, M, P>,
)
    requires
        admissible(task, session, event),
        task.phase == (PhaseView::<U, M>::ReadingZones { refresh: true }) || (
        task.phase matches PhaseView::Arming { purpose, .. } && purpose is Refresh),
        event is Failed || event is Rejected,
    ensures
        ({
            let step = next::<S, U, M, P>(task, session, event);
            &&& step.task == (TaskView { phase: PhaseView::Listening, ..task })
            &&& step.session == session
            &&& step.turn.request is NextEvent
            &&& step.turn.effect matches Some(EffectView::Log(_))
        }),
{
}

/// Whether a list of writes moves the zones generation.
pub open spec fn moves_generation(writes: Seq<SharedWrite>) -> bool {
    exists|i: int|
        0 <= i < writes.len() && ((#[trigger] writes[i]).update is NextGeneration
            || writes[i].update is ZonesGeneration)
}

/// The generation moves only when changed zones have been armed again.
pub proof fn law_generation_moves_only_after_a_refresh<S, U, M, P>(
    task: TaskView<S, U, M>,
    session: SessionView,
    event: EventView<U, M, P>,
    writes: Seq<SharedWrite>,
)
    requires
        admissible(task, session, event),
        next::<S, U, M, P>(task, session, event).turn.effect == Some(
            EffectView::<S, U, M>::Publish(writes),
        ),
        moves_generation(writes),
    ensures
        event is BarriersSet,
        task.phase matches PhaseView::Arming { purpose, .. } && purpose is Refresh,
{
    if event is Activated {
        let i = choose|i: int|
            0 <= i < writes.len() && ((#[trigger] writes[i]).update is NextGeneration
                || writes[i].update is ZonesGeneration);
        assert(!(writes[i].update is NextGeneration) && !(writes[i].update is ZonesGeneration));
    }
}

/// Barriers are always asked for under the zone set that the session knows by then: never under
/// one that the portal has already replaced.
pub proof fn law_barriers_carry_the_known_zone_set<S, U, M, P>(
    task: TaskView<S, U, M>,
    session: SessionView,
    event: EventView<U, M, P>,
)
    requires
        admissible(task, session, event),
    ensures
        ({
            let step = next::<S, U, M, P>(task, session, event);
            step.turn.request matches RequestView::SetBarriers { zone_set, .. } ==> zone_set
                == step.session.zone_set
        }),
{
}

/// The session's map changes only when the portal has accepted barriers, and then holds exactly
/// the accepted ones; its zones change only when the portal reports new ones.
pub proof fn law_session_holds_what_the_portal_said<S, U, M, P>(
    task: TaskView<S, U, M>,
    session: SessionView,
    event: EventView<U, M, P>,
)
    requires
        admissible(task, session, event),
    ensures
        ({
            let step = next::<S, U, M, P>(task, session, event);
            match event {
                EventView::BarriersSet { failed } => step.session == (SessionView {
                    barrier_map: armed(task.phase->requested, failed),
                    ..session
                }),
                EventView::Zones { zones, zone_set } => step.session == (SessionView {
                    zones,
                    zone_set,
                    ..session
                }),
                _ => step.session == session,
            }
        }),
{
}

} // verus!
