//! What each event leads to, phase by phase, and what a whole setup comes to.

use crate::activation::{
    activation_write_seq, after_all, generation_write_seq, law_activation_is_shared,
    law_generation_counts_refreshes, ActivatedBarrier, Activation, SharedActivation,
};
use crate::barriers::{
    barrier_labels, edge_lines, edge_position, law_edge_count,
    law_unfiltered_zones_have_four_lines, portal_barrier, portal_barriers, Edge, Zone,
};
use crate::session::{
    armed, law_no_rejection_keeps_all, requested_lines, spec_fits, SessionView, SpecView,
};
use crate::setup::SetupView;
use crate::task::{
    admissible, awaits, initial, next, CmdView, EffectView, EventView, InputKinds, PhaseView,
    PurposeView, RequestView, Step, TaskView, TurnView,
};
use vstd::prelude::*;

verus! {

// ---------------------------------------------------------------------------------------------
// Setting up
// ---------------------------------------------------------------------------------------------
/// A task starts out owing its report to the sender, with the barriers that it was asked for, and
/// waits for the portal to be reached.
pub proof fn law_tasks_start_with_everything_owed<S, U, M>(sender: S, spec: SpecView)
    ensures
        initial::<S, U, M>(sender, spec).report == Some(sender),
        initial::<S, U, M>(sender, spec).spec == spec,
        initial::<S, U, M>(sender, spec).phase is Connecting,
{
}

/// Once the portal is reached, a session for the keyboard, the pointer and the touchscreen is
/// asked for; once there is one, its zones.
pub proof fn law_sessions_capture_everything<S, U, M, P>(
    task: TaskView<S, U, M>,
    session: SessionView,
)
    ensures
        task.phase is Connecting ==> next::<S, U, M, P>(task, session, EventView::Done) == (Step::<S, U, M, P> {
            task: TaskView { phase: PhaseView::CreatingSession, ..task },
            session,
            turn: TurnView {
                effect: None,
                request: RequestView::CreateSession(
                    InputKinds { keyboard: true, pointer: true, touchscreen: true },
                ),
            },
        }),
        task.phase is CreatingSession ==> next::<S, U, M, P>(task, session, EventView::Done) == (
        Step::<S, U, M, P> {
            task: TaskView { phase: PhaseView::ReadingZones { refresh: false }, ..task },
            session,
            turn: TurnView { effect: None, request: RequestView::ReadZones },
        }),
{
}

/// A setup arms what the task was asked for, whatever that is, on the zones that the portal
/// reports and under their zone set. The map that waits to be confirmed is that of the very same
/// lines. Without a filter every zone gets four barriers.
pub proof fn law_setups_arm_what_was_asked_for<S, U, M, P>(
    task: TaskView<S, U, M>,
    session: SessionView,
    zones: Seq<Zone>,
    zone_set: u32,
)
    requires
        task.phase == (PhaseView::<U, M>::ReadingZones { refresh: false }),
    ensures
        ({
            let lines = requested_lines(task.spec, zones);
            let step = next::<S, U, M, P>(task, session, EventView::Zones { zones, zone_set });
            &&& step == (Step::<S, U, M, P> {
                task: TaskView {
                    phase: PhaseView::Arming {
                        requested: barrier_labels(lines),
                        purpose: PurposeView::Setup,
                    },
                    ..task
                },
                session: SessionView { zones, zone_set, ..session },
                turn: TurnView {
                    effect: None,
                    request: RequestView::SetBarriers {
                        barriers: portal_barriers(lines),
                        zone_set,
                    },
                },
            })
            &&& task.spec == SpecView::Edges(None) ==> {
                &&& step.turn.request->barriers.len() == 4 * zones.len()
                &&& step.task.phase->requested.len() == 4 * zones.len()
            }
            &&& task.spec matches SpecView::Segments(given) ==> {
                &&& step.turn.request->barriers.len() == given.len()
                &&& step.task.phase->requested.len() == given.len()
            }
        }),
{
    law_edge_count(zones, None);
}

/// A setup without a filter sends four barriers for each zone and labels them: for the zone at
/// index `k` those with the ids from `4 * k + 1` on are its top, bottom, left and right edge.
pub proof fn law_unfiltered_setups_arm_all_four_edges<S, U, M, P>(
    task: TaskView<S, U, M>,
    session: SessionView,
    zones: Seq<Zone>,
    zone_set: u32,
    k: int,
    id: u32,
)
    requires
        task.phase == (PhaseView::<U, M>::ReadingZones { refresh: false }),
        task.spec == SpecView::Edges(None),
        0 <= k < zones.len(),
        4 * zones.len() <= u32::MAX,
        id == 4 * k + 1,
    ensures
        ({
            let step = next::<S, U, M, P>(task, session, EventView::Zones { zones, zone_set });
            let sent = step.turn.request->barriers;
            let map = step.task.phase->requested;
            &&& step.turn.request is SetBarriers
            &&& step.task.phase is Arming
            &&& sent[4 * k] == portal_barrier(id, edge_position(zones[k], Edge::Top))
            &&& map[4 * k] == (id, "top"@)
            &&& sent[4 * k + 1] == portal_barrier(
                (id + 1) as u32,
                edge_position(zones[k], Edge::Bottom),
            )
            &&& map[4 * k + 1] == ((id + 1) as u32, "bottom"@)
            &&& sent[4 * k + 2] == portal_barrier(
                (id + 2) as u32,
                edge_position(zones[k], Edge::Left),
            )
            &&& map[4 * k + 2] == ((id + 2) as u32, "left"@)
            &&& sent[4 * k + 3] == portal_barrier(
                (id + 3) as u32,
                edge_position(zones[k], Edge::Right),
            )
            &&& map[4 * k + 3] == ((id + 3) as u32, "right"@)
        }),
{
    law_unfiltered_zones_have_four_lines(zones, k);
}

/// Once the barriers are armed the accepted ones are recorded, and the input events are asked
/// for.
pub proof fn law_armed_setups_connect<S, U, M, P>(
    task: TaskView<S, U, M>,
    session: SessionView,
    requested: Seq<(u32, Seq<char>)>,
    failed: Seq<u32>,
)
    requires
        task.phase == (PhaseView::<U, M>::Arming { requested, purpose: PurposeView::Setup }),
    ensures
        next::<S, U, M, P>(task, session, EventView::BarriersSet { failed }) == (Step::<S, U, M, P> {
            task: TaskView {
                phase: PhaseView::ConnectingEis { barrier_map: armed(requested, failed) },
                ..task
            },
            session: SessionView { barrier_map: armed(requested, failed), ..session },
            turn: TurnView { effect: None, request: RequestView::ConnectEis },
        }),
{
}

/// The connection is handed to whoever waits for it, with the zones that the session knows and
/// the map of the armed barriers. Where nobody waits any more it is closed again.
pub proof fn law_connections_are_handed_over<S, U, M, P>(
    task: TaskView<S, U, M>,
    session: SessionView,
    barrier_map: Seq<(u32, Seq<char>)>,
    raw_fd: i32,
)
    requires
        task.phase == (PhaseView::<U, M>::ConnectingEis { barrier_map }),
    ensures
        task.report matches Some(to) ==> next::<S, U, M, P>(
            task,
            session,
            EventView::EisConnected { raw_fd },
        ) == (Step::<S, U, M, P> {
            task: TaskView { report: None, phase: PhaseView::Reporting { raw_fd }, ..task },
            session,
            turn: TurnView {
                effect: None,
                request: RequestView::ReportSetup {
                    to,
                    result: SetupView { zones: session.zones, eis_raw_fd: raw_fd, barrier_map },
                },
            },
        }),
        task.report is None ==> next::<S, U, M, P>(
            task,
            session,
            EventView::EisConnected { raw_fd },
        ) == (Step::<S, U, M, P> {
            task: TaskView {
                phase: PhaseView::Closing { result: Err("setup already reported"@) },
                ..task
            },
            session,
            turn: TurnView {
                effect: Some(EffectView::CloseFd(raw_fd)),
                request: RequestView::CloseSession,
            },
        }),
{
}

/// After a setup was taken, both signals are subscribed to, one after the other, and then the
/// task listens. A setup result that nobody takes closes the connection and the session.
pub proof fn law_taken_setups_subscribe_and_listen<S, U, M, P>(
    task: TaskView<S, U, M>,
    session: SessionView,
    raw_fd: i32,
)
    ensures
        task.phase == (PhaseView::<U, M>::Reporting { raw_fd }) ==> next::<S, U, M, P>(
            task,
            session,
            EventView::Done,
        ) == (Step::<S, U, M, P> {
            task: TaskView { phase: PhaseView::SubscribingActivated, ..task },
            session,
            turn: TurnView { effect: None, request: RequestView::SubscribeActivated },
        }),
        task.phase == (PhaseView::<U, M>::Reporting { raw_fd }) ==> next::<S, U, M, P>(
            task,
            session,
            EventView::Unclaimed,
        ) == (Step::<S, U, M, P> {
            task: TaskView {
                phase: PhaseView::Closing { result: Err("setup result channel closed"@) },
                ..task
            },
            session,
            turn: TurnView {
                effect: Some(EffectView::CloseFd(raw_fd)),
                request: RequestView::CloseSession,
            },
        }),
        task.phase is SubscribingActivated ==> next::<S, U, M, P>(task, session, EventView::Done)
            == (Step::<S, U, M, P> {
            task: TaskView { phase: PhaseView::SubscribingZonesChanged, ..task },
            session,
            turn: TurnView { effect: None, request: RequestView::SubscribeZonesChanged },
        }),
        task.phase is SubscribingZonesChanged ==> next::<S, U, M, P>(
            task,
            session,
            EventView::Done,
        ) == (Step::<S, U, M, P> {
            task: TaskView { phase: PhaseView::Listening, ..task },
            session,
            turn: TurnView { effect: None, request: RequestView::NextEvent },
        }),
{
}

/// A setup from beginning to end, where the portal grants everything that it is asked for: the
/// sender receives the zones, the connection and the map of the barriers, whichever were asked
/// for, less those that the compositor rejected. Then the task listens, with the same barriers to
/// reproduce when the zones change.
pub proof fn law_setups_deliver_what_was_asked_for<S, U, M, P>(
    sender: S,
    spec: SpecView,
    session: SessionView,
    zones: Seq<Zone>,
    zone_set: u32,
    failed: Seq<u32>,
    raw_fd: i32,
)
    ensures
        ({
            let lines = requested_lines(spec, zones);
            let map = armed(barrier_labels(lines), failed);
            let a = next::<S, U, M, P>(initial(sender, spec), session, EventView::Done);
            let b = next::<S, U, M, P>(a.task, a.session, EventView::Done);
            let c = next::<S, U, M, P>(b.task, b.session, EventView::Zones { zones, zone_set });
            let d = next::<S, U, M, P>(c.task, c.session, EventView::BarriersSet { failed });
            let e = next::<S, U, M, P>(d.task, d.session, EventView::EisConnected { raw_fd });
            let f = next::<S, U, M, P>(e.task, e.session, EventView::Done);
            let g = next::<S, U, M, P>(f.task, f.session, EventView::Done);
            let h = next::<S, U, M, P>(g.task, g.session, EventView::Done);
            &&& c.turn.request == (RequestView::<S, P>::SetBarriers {
                barriers: portal_barriers(lines),
                zone_set,
            })
            &&& e.turn.request == (RequestView::<S, P>::ReportSetup {
                to: sender,
                result: SetupView { zones, eis_raw_fd: raw_fd, barrier_map: map },
            })
            &&& h.task == (TaskView::<S, U, M> { report: None, spec, phase: PhaseView::Listening })
            &&& h.session == (SessionView { zones, barrier_map: map, zone_set })
            &&& h.turn.request is NextEvent
            &&& failed.len() == 0 ==> map == barrier_labels(lines)
            &&& spec == SpecView::Edges(None) ==> lines == edge_lines(zones, None) && lines.len()
                == 4 * zones.len()
            &&& spec matches SpecView::Segments(given) ==> lines == given
        }),
{
    law_edge_count(zones, None);
    law_no_rejection_keeps_all(barrier_labels(requested_lines(spec, zones)));
    if failed.len() == 0 {
        assert(failed =~= seq![]);
    }
}

// ---------------------------------------------------------------------------------------------
// Failing
// ---------------------------------------------------------------------------------------------
/// Where there is no session yet, a failed setup ends the task at once and tells whoever waits
/// for it which step failed and what was said.
pub proof fn law_early_failures_are_told<S, U, M, P>(
    task: TaskView<S, U, M>,
    session: SessionView,
    why: Seq<char>,
    to: S,
)
    requires
        task.report == Some(to),
    ensures
        task.phase is Connecting ==> next::<S, U, M, P>(task, session, EventView::Failed(why)) == (
        Step::<S, U, M, P> {
            task: TaskView { report: None, phase: PhaseView::Finished, ..task },
            session,
            turn: TurnView {
                effect: Some(
                    EffectView::ReportFailure { to, reason: "InputCapture::new: "@ + why },
                ),
                request: RequestView::Finish { result: Err("InputCapture::new: "@ + why) },
            },
        }),
        task.phase is CreatingSession ==> next::<S, U, M, P>(task, session, EventView::Failed(why))
            == (Step::<S, U, M, P> {
            task: TaskView { report: None, phase: PhaseView::Finished, ..task },
            session,
            turn: TurnView {
                effect: Some(EffectView::ReportFailure { to, reason: "create_session: "@ + why }),
                request: RequestView::Finish { result: Err("create_session: "@ + why) },
            },
        }),
{
}

/// Where nobody waits for the report, a failure before there is a session ends the task with the
/// step that failed and what was said, and is told to nobody.
pub proof fn law_early_failures_without_a_waiter_end_the_task<S, U, M, P>(
    task: TaskView<S, U, M>,
    session: SessionView,
    why: Seq<char>,
)
    requires
        task.report is None,
    ensures
        task.phase is Connecting ==> next::<S, U, M, P>(task, session, EventView::Failed(why)) == (
        Step::<S, U, M, P> {
            task: TaskView { phase: PhaseView::Finished, ..task },
            session,
            turn: TurnView {
                effect: None,
                request: RequestView::Finish { result: Err("InputCapture::new: "@ + why) },
            },
        }),
        task.phase is CreatingSession ==> next::<S, U, M, P>(task, session, EventView::Failed(why))
            == (Step::<S, U, M, P> {
            task: TaskView { phase: PhaseView::Finished, ..task },
            session,
            turn: TurnView {
                effect: None,
                request: RequestView::Finish { result: Err("create_session: "@ + why) },
            },
        }),
{
}

/// Where there is a session, a step of the setup that fails closes it, and the task remembers
/// which step failed and what was said.
pub proof fn law_failed_steps_close_the_session<S, U, M, P>(
    task: TaskView<S, U, M>,
    session: SessionView,
    requested: Seq<(u32, Seq<char>)>,
    why: Seq<char>,
)
    ensures
        ({
            let failed = next::<S, U, M, P>(task, session, EventView::Failed(why));
            let rejected = next::<S, U, M, P>(task, session, EventView::Rejected(why));
            let closing = |reason: Seq<char>|
                Step::<S, U, M, P> {
                    task: TaskView { phase: PhaseView::Closing { result: Err(reason) }, ..task },
                    session,
                    turn: TurnView { effect: None, request: RequestView::CloseSession },
                };
            &&& task.phase == (PhaseView::<U, M>::ReadingZones { refresh: false }) ==> {
                &&& failed == closing("zones request: "@ + why)
                &&& rejected == closing("zones response: "@ + why)
            }
            &&& task.phase == (PhaseView::<U, M>::Arming {
                requested,
                purpose: PurposeView::Setup,
            }) ==> {
                &&& failed == closing("set_pointer_barriers request: "@ + why)
                &&& rejected == closing("set_pointer_barriers response: "@ + why)
            }
            &&& task.phase is ConnectingEis ==> failed == closing("connect_to_eis: "@ + why)
            &&& task.phase is SubscribingActivated ==> failed == closing(
                "receive_activated: "@ + why,
            )
            &&& task.phase is SubscribingZonesChanged ==> failed == closing(
                "receive_zones_changed: "@ + why,
            )
        }),
{
}

/// Once the session is closed, or could not be closed, the task is over with the result that it
/// remembers. A failure that nobody has heard of is told to whoever waits for the setup.
pub proof fn law_closed_tasks_keep_their_result<S, U, M, P>(
    task: TaskView<S, U, M>,
    session: SessionView,
    result: Result<(), Seq<char>>,
    event: EventView<U, M, P>,
)
    requires
        task.phase == (PhaseView::<U, M>::Closing { result }),
        event is Done || event is Failed,
    ensures
        ({
            let step = next::<S, U, M, P>(task, session, event);
            &&& step.session == session
            &&& step.task.spec == task.spec
            &&& step.task.phase is Finished
            &&& step.turn.request == (RequestView::<S, P>::Finish { result })
            &&& match (result, task.report) {
                (Err(reason), Some(to)) => step.task.report is None && step.turn.effect == Some(
                    EffectView::<S, U, M>::ReportFailure { to, reason },
                ),
                _ => step.task.report == task.report && step.turn.effect is None,
            }
        }),
{
}

// ---------------------------------------------------------------------------------------------
// Listening
// ---------------------------------------------------------------------------------------------
/// Every activation is published: once the writes are done, the cells `cells` hold the id, the
/// barrier and the cursor position that the activation names, and keep what it does not name. The
/// task goes on listening, and nothing else changes.
pub proof fn law_activations_are_published<S, U, M, P>(
    task: TaskView<S, U, M>,
    session: SessionView,
    a: Activation,
    cells: SharedActivation,
)
    requires
        task.phase is Listening,
    ensures
        ({
            let step = next::<S, U, M, P>(task, session, EventView::Activated(a));
            &&& step.task == task
            &&& step.session == session
            &&& step.turn.request is NextEvent
            &&& step.turn.effect matches Some(EffectView::Publish(writes))
            &&& writes == activation_write_seq(a)
            &&& after_all(cells, writes).zones_generation == cells.zones_generation
            &&& match a.activation_id {
                Some(id) => after_all(cells, writes).activation_id == id,
                None => after_all(cells, writes).activation_id == cells.activation_id,
            }
            &&& match a.barrier_id {
                Some(ActivatedBarrier::Barrier(id)) => after_all(cells, writes).barrier_id == id,
                _ => after_all(cells, writes).barrier_id == cells.barrier_id,
            }
            &&& match a.cursor_position {
                Some((x, y)) => after_all(cells, writes).cursor_pos_x == x && after_all(
                    cells,
                    writes,
                ).cursor_pos_y == y,
                None => after_all(cells, writes).cursor_pos_x == cells.cursor_pos_x && after_all(
                    cells,
                    writes,
                ).cursor_pos_y == cells.cursor_pos_y,
            }
        }),
{
    law_activation_is_shared(cells, a);
}

/// While the task listens, a change of the zones has them read again, a command leads to its own
/// call, and a request to close, or the loss of the command channel, to the end of the capture.
/// None of these changes what is in force.
pub proof fn law_commands_lead_to_their_calls<S, U, M, P>(
    task: TaskView<S, U, M>,
    session: SessionView,
    reply: U,
    cursor_position: Option<(P, P)>,
    activation_id: u32,
)
    requires
        task.phase is Listening,
    ensures
        ({
            let on = |event: EventView<U, M, P>| next::<S, U, M, P>(task, session, event);
            let told = |cmd: CmdView<U, M, P>|
                next::<S, U, M, P>(task, session, EventView::Command { cmd, activation_id });
            let to = |phase: PhaseView<U, M>, request: RequestView<S, P>|
                Step::<S, U, M, P> {
                    task: TaskView { phase, ..task },
                    session,
                    turn: TurnView { effect: None, request },
                };
            &&& on(EventView::ZonesChanged) == to(
                PhaseView::ReadingZones { refresh: true },
                RequestView::ReadZones,
            )
            &&& on(EventView::CommandsClosed) == to(PhaseView::Stopping, RequestView::Disable)
            &&& told(CmdView::Close) == to(PhaseView::Stopping, RequestView::Disable)
            &&& told(CmdView::Enable(reply)) == to(
                PhaseView::Calling { reply },
                RequestView::Enable,
            )
            &&& told(CmdView::Disable(reply)) == to(
                PhaseView::Calling { reply },
                RequestView::Disable,
            )
            &&& told(CmdView::Release { cursor_position, reply }) == to(
                PhaseView::Calling { reply },
                RequestView::Release {
                    activation_id: if activation_id == 0 {
                        None
                    } else {
                        Some(activation_id)
                    },
                    cursor_position,
                },
            )
        }),
{
}

/// A call is answered on its own handle with what the portal said, and the task listens again.
pub proof fn law_calls_pass_the_outcome_on<S, U, M, P>(
    task: TaskView<S, U, M>,
    session: SessionView,
    reply: U,
    why: Seq<char>,
)
    requires
        task.phase == (PhaseView::<U, M>::Calling { reply }),
    ensures
        next::<S, U, M, P>(task, session, EventView::Done) == (Step::<S, U, M, P> {
            task: TaskView { phase: PhaseView::Listening, ..task },
            session,
            turn: TurnView {
                effect: Some(EffectView::Reply { to: reply, result: Ok(()) }),
                request: RequestView::NextEvent,
            },
        }),
        next::<S, U, M, P>(task, session, EventView::Failed(why)) == (Step::<S, U, M, P> {
            task: TaskView { phase: PhaseView::Listening, ..task },
            session,
            turn: TurnView {
                effect: Some(EffectView::Reply { to: reply, result: Err(why) }),
                request: RequestView::NextEvent,
            },
        }),
{
}

/// Once the capture is disabled, or could not be, the session is closed without an error.
pub proof fn law_stopped_tasks_close_the_session<S, U, M, P>(
    task: TaskView<S, U, M>,
    session: SessionView,
    event: EventView<U, M, P>,
)
    requires
        task.phase is Stopping,
        event is Done || event is Failed,
    ensures
        next::<S, U, M, P>(task, session, event) == (Step::<S, U, M, P> {
            task: TaskView { phase: PhaseView::Closing { result: Ok(()) }, ..task },
            session,
            turn: TurnView { effect: None, request: RequestView::CloseSession },
        }),
{
}

// ---------------------------------------------------------------------------------------------
// Arming again
// ---------------------------------------------------------------------------------------------
/// A request for barriers asks for exactly those lines, on the zones and under the zone set that
/// the session knows, and remembers the request and whom to answer.
pub proof fn law_barrier_requests_are_passed_on<S, U, M, P>(
    task: TaskView<S, U, M>,
    session: SessionView,
    spec: SpecView,
    reply: M,
    activation_id: u32,
)
    requires
        task.phase is Listening,
    ensures
        ({
            let lines = requested_lines(spec, session.zones);
            next::<S, U, M, P>(
                task,
                session,
                EventView::Command { cmd: CmdView::SetBarriers { spec, reply }, activation_id },
            ) == (Step::<S, U, M, P> {
                task: TaskView {
                    phase: PhaseView::Arming {
                        requested: barrier_labels(lines),
                        purpose: PurposeView::Command { spec, reply },
                    },
                    ..task
                },
                session,
                turn: TurnView {
                    effect: None,
                    request: RequestView::SetBarriers {
                        barriers: portal_barriers(lines),
                        zone_set: session.zone_set,
                    },
                },
            })
        }),
{
}

/// A request for barriers that the portal accepts comes into force and is answered with the map
/// of the accepted ones; one that it refuses is answered with the reason and changes nothing.
pub proof fn law_barrier_requests_take_effect_when_armed<S, U, M, P>(
    task: TaskView<S, U, M>,
    session: SessionView,
    requested: Seq<(u32, Seq<char>)>,
    spec: SpecView,
    reply: M,
    failed: Seq<u32>,
    why: Seq<char>,
)
    requires
        task.phase == (PhaseView::<U, M>::Arming {
            requested,
            purpose: PurposeView::Command { spec, reply },
        }),
    ensures
        next::<S, U, M, P>(task, session, EventView::BarriersSet { failed }) == (Step::<S, U, M, P> {
            task: TaskView { spec, phase: PhaseView::Listening, ..task },
            session: SessionView { barrier_map: armed(requested, failed), ..session },
            turn: TurnView {
                effect: Some(
                    EffectView::ReplyMap { to: reply, result: Ok(armed(requested, failed)) },
                ),
                request: RequestView::NextEvent,
            },
        }),
        next::<S, U, M, P>(task, session, EventView::Failed(why)) == (Step::<S, U, M, P> {
            task: TaskView { phase: PhaseView::Listening, ..task },
            session,
            turn: TurnView {
                effect: Some(
                    EffectView::ReplyMap {
                        to: reply,
                        result: Err("set_pointer_barriers request: "@ + why),
                    },
                ),
                request: RequestView::NextEvent,
            },
        }),
        next::<S, U, M, P>(task, session, EventView::Rejected(why)) == (Step::<S, U, M, P> {
            task: TaskView { phase: PhaseView::Listening, ..task },
            session,
            turn: TurnView {
                effect: Some(
                    EffectView::ReplyMap {
                        to: reply,
                        result: Err("set_pointer_barriers response: "@ + why),
                    },
                ),
                request: RequestView::NextEvent,
            },
        }),
{
}

/// A refresh arms what is in force on the new zones, under their zone set. Once the portal has
/// accepted, the session holds the map of the accepted barriers, and the generation in the cells
/// `cells` moves on by one.
pub proof fn law_refreshes_arm_what_is_in_force<S, U, M, P>(
    task: TaskView<S, U, M>,
    session: SessionView,
    zones: Seq<Zone>,
    zone_set: u32,
    requested: Seq<(u32, Seq<char>)>,
    failed: Seq<u32>,
    cells: SharedActivation,
)
    ensures
        task.phase == (PhaseView::<U, M>::ReadingZones { refresh: true }) ==> next::<S, U, M, P>(
            task,
            session,
            EventView::Zones { zones, zone_set },
        ) == (Step::<S, U, M, P> {
            task: TaskView {
                phase: PhaseView::Arming {
                    requested: barrier_labels(requested_lines(task.spec, zones)),
                    purpose: PurposeView::Refresh,
                },
                ..task
            },
            session: SessionView { zones, zone_set, ..session },
            turn: TurnView {
                effect: None,
                request: RequestView::SetBarriers {
                    barriers: portal_barriers(requested_lines(task.spec, zones)),
                    zone_set,
                },
            },
        }),
        task.phase == (PhaseView::<U, M>::Arming { requested, purpose: PurposeView::Refresh }) ==> {
            let step = next::<S, U, M, P>(task, session, EventView::BarriersSet { failed });
            &&& step.task == (TaskView { phase: PhaseView::Listening, ..task })
            &&& step.session == (SessionView { barrier_map: armed(requested, failed), ..session })
            &&& step.turn.request is NextEvent
            &&& step.turn.effect matches Some(EffectView::Publish(writes))
            &&& writes == generation_write_seq()
            &&& after_all(cells, writes).zones_generation == (cells.zones_generation + 1)
                % 0x1_0000_0000
            &&& after_all(cells, writes) == (SharedActivation {
                zones_generation: after_all(cells, writes).zones_generation,
                ..cells
            })
        },
{
    law_generation_counts_refreshes(cells);
}

/// A refresh that fails is logged, with the step that failed and what was said, and the task goes
/// on listening as if nothing had happened.
pub proof fn law_failed_refreshes_are_logged<S, U, M, P>(
    task: TaskView<S, U, M>,
    session: SessionView,
    requested: Seq<(u32, Seq<char>)>,
    why: Seq<char>,
)
    ensures
        ({
            let failed = next::<S, U, M, P>(task, session, EventView::Failed(why));
            let rejected = next::<S, U, M, P>(task, session, EventView::Rejected(why));
            let logged = |reason: Seq<char>|
                Step::<S, U, M, P> {
                    task: TaskView { phase: PhaseView::Listening, ..task },
                    session,
                    turn: TurnView {
                        effect: Some(
                            EffectView::Log(
                                "pyinputcapture: zones changed but re-arming failed: "@ + reason,
                            ),
                        ),
                        request: RequestView::NextEvent,
                    },
                };
            &&& task.phase == (PhaseView::<U, M>::ReadingZones { refresh: true }) ==> {
                &&& failed == logged("zones request: "@ + why)
                &&& rejected == logged("zones response: "@ + why)
            }
            &&& task.phase == (PhaseView::<U, M>::Arming {
                requested,
                purpose: PurposeView::Refresh,
            }) ==> {
                &&& failed == logged("set_pointer_barriers request: "@ + why)
                &&& rejected == logged("set_pointer_barriers response: "@ + why)
            }
        }),
{
}

// ---------------------------------------------------------------------------------------------
// Waiting
// ---------------------------------------------------------------------------------------------
/// Which events a phase can end with.
pub proof fn law_phases_end_with_their_answers<U, M, P>(
    phase: PhaseView<U, M>,
    event: EventView<U, M, P>,
)
    ensures
        event is Done ==> (awaits(phase, event) <==> phase is Connecting || phase is CreatingSession
            || phase is Reporting || phase is SubscribingActivated
            || phase is SubscribingZonesChanged || phase is Calling || phase is Stopping
            || phase is Closing),
        event is Failed ==> (awaits(phase, event) <==> !(phase is Reporting || phase is Listening
            || phase is Finished)),
        event is Rejected || event is Zones || event is BarriersSet ==> (awaits(phase, event)
            ==> phase is ReadingZones || phase is Arming),
        phase is ReadingZones ==> (awaits(phase, event) <==> event is Zones || event is Failed
            || event is Rejected),
        phase is Arming ==> (awaits(phase, event) <==> event is BarriersSet || event is Failed
            || event is Rejected),
        event is EisConnected ==> (awaits(phase, event) <==> phase is ConnectingEis),
        event is Unclaimed ==> (awaits(phase, event) <==> phase is Reporting),
        event is Activated || event is ZonesChanged || event is Command || event is CommandsClosed
            ==> (awaits(phase, event) <==> phase is Listening),
{
}

/// An awaited event can always be handled, except where barriers follow from it that do not fit.
pub proof fn law_only_geometry_stands_in_the_way<S, U, M, P>(
    task: TaskView<S, U, M>,
    session: SessionView,
    event: EventView<U, M, P>,
)
    ensures
        admissible(task, session, event) ==> awaits(task.phase, event),
        awaits(task.phase, event) ==> match event {
            EventView::Zones { zones, .. } => admissible(task, session, event) <==> spec_fits(
                task.spec,
                zones,
            ),
            EventView::Command { cmd: CmdView::SetBarriers { spec, .. }, .. } => admissible(
                task,
                session,
                event,
            ) <==> spec_fits(spec, session.zones),
            _ => admissible(task, session, event),
        },
{
}

} // verus!
