//! The portal task: one session from its creation to its end, decided step by step.
//!
//! The task itself talks to nobody. It says what to do next, in the form of a `Turn`: at most
//! one thing to do on the spot, and one request to carry out and wait for. Whoever runs it does
//! so and hands back the `Event` that came of it. In between, the task keeps what it has to
//! remember: who waits for the setup, which barriers the caller last asked for, and which
//! command still needs its reply.
//!
//! The type parameters stand for what the task only carries: `S` is the way to report the
//! setup, `U` and `M` are the ways to answer a command without and with a barrier map, and `P`
//! is a cursor coordinate.

use crate::activation::{
    activation_write_seq, activation_writes, current_activation, generation_write_seq,
    generation_writes, some_activation, Activation, SharedWrite,
};
use crate::barriers::{barrier_labels, map_view, portal_barriers, BarrierMap, Zone};
use crate::session::{
    armed, build, can_build, clone_zones, requested_lines, spec_fits, BarrierSpec, SessionState,
    SessionView, SpecView,
};
use crate::setup::{SetupReport, SetupResult, SetupView};
use crate::text::joined;
use ashpd::desktop::input_capture::Barrier;
use vstd::prelude::*;

verus! {

// ---------------------------------------------------------------------------------------------
// Vocabulary
// ---------------------------------------------------------------------------------------------
/// A command from the caller.
#[allow(inconsistent_fields)]
#[derive(Debug)]
pub enum Cmd<U, M, P> {
    Enable(U),
    Disable(U),
    /// Replaces the armed barriers on the existing session, without creating it anew.
    SetBarriers { spec: BarrierSpec, reply: M },
    Release { cursor_position: Option<(P, P)>, reply: U },
    Close,
}

/// What came of the last request.
#[derive(Debug)]
pub enum Event<U, M, P> {
    /// It was carried out.
    Done,
    /// It could not be made; the text says why.
    Failed(String),
    /// It was made, and answered with an error; the text says which.
    Rejected(String),
    /// The zones of the screen, and the id of the set that they form.
    Zones { zones: Vec<Zone>, zone_set: u32 },
    /// The barriers are armed, except those with these ids.
    BarriersSet { failed: Vec<u32> },
    /// The connection to the input events.
    EisConnected { raw_fd: i32 },
    /// Nobody is left to take the setup result.
    Unclaimed,
    /// The pointer hit a barrier.
    Activated(Activation),
    /// The zones of the screen are no longer those last reported.
    ZonesChanged,
    /// A command, and the activation id that was current when it arrived.
    Command { cmd: Cmd<U, M, P>, activation_id: u32 },
    /// No more commands can come.
    CommandsClosed,
}

/// The kinds of input that a session asks for.
#[derive(Clone, Copy, PartialEq, Eq, Structural, Debug)]
pub struct InputKinds {
    pub keyboard: bool,
    pub pointer: bool,
    pub touchscreen: bool,
}

/// Something to carry out and wait for.
#[allow(inconsistent_fields)]
#[derive(Debug)]
pub enum Request<S, P> {
    /// Reach the portal.
    Connect,
    CreateSession(InputKinds),
    ReadZones,
    SetBarriers { barriers: Vec<Barrier>, zone_set: u32 },
    ConnectEis,
    ReportSetup { to: S, result: SetupResult },
    SubscribeActivated,
    SubscribeZonesChanged,
    /// Wait for a signal or a command.
    NextEvent,
    Enable,
    Disable,
    Release { activation_id: Option<u32>, cursor_position: Option<(P, P)> },
    CloseSession,
    /// The task is over; there is nothing to wait for.
    Finish { result: Result<(), String> },
}

/// Something to do on the spot, before the request.
#[allow(inconsistent_fields)]
#[derive(Debug, PartialEq, Eq)]
pub enum Effect<S, U, M> {
    Log(String),
    Publish(Vec<SharedWrite>),
    CloseFd(i32),
    Reply { to: U, result: Result<(), String> },
    ReplyMap { to: M, result: Result<BarrierMap, String> },
    ReportFailure { to: S, reason: String },
}

/// What to do next.
#[derive(Debug)]
pub struct Turn<S, U, M, P> {
    pub effect: Option<Effect<S, U, M>>,
    pub request: Request<S, P>,
}

/// Why barriers are being armed.
#[derive(Debug)]
pub enum Purpose<M> {
    Setup,
    Refresh,
    Command { spec: BarrierSpec, reply: M },
}

/// What the task is waiting for.
#[derive(Debug)]
pub enum Phase<U, M> {
    Connecting,
    CreatingSession,
    ReadingZones { refresh: bool },
    Arming { requested: BarrierMap, purpose: Purpose<M> },
    ConnectingEis { barrier_map: BarrierMap },
    Reporting { raw_fd: i32 },
    SubscribingActivated,
    SubscribingZonesChanged,
    /// The session is up; signals and commands come in.
    Listening,
    /// A command is being carried out.
    Calling { reply: U },
    /// The capture is being disabled for good.
    Stopping,
    Closing { result: Result<(), String> },
    Finished,
}

/// The portal task.
#[derive(Debug)]
pub struct PortalTask<S, U, M> {
    pub report: SetupReport<S>,
    /// What the caller last asked for with success: what a change of the zones reproduces.
    pub spec: BarrierSpec,
    pub phase: Phase<U, M>,
}

// ---------------------------------------------------------------------------------------------
// Model
// ---------------------------------------------------------------------------------------------
#[allow(inconsistent_fields)]
pub ghost enum CmdView<U, M, P> {
    Enable(U),
    Disable(U),
    SetBarriers { spec: SpecView, reply: M },
    Release { cursor_position: Option<(P, P)>, reply: U },
    Close,
}

impl<U, M, P> View for Cmd<U, M, P> {
    type V = CmdView<U, M, P>;

    open spec fn view(&self) -> CmdView<U, M, P> {
        match *self {
            Cmd::Enable(reply) => CmdView::Enable(reply),
            Cmd::Disable(reply) => CmdView::Disable(reply),
            Cmd::SetBarriers { spec, reply } => CmdView::SetBarriers { spec: spec@, reply },
            Cmd::Release { cursor_position, reply } => CmdView::Release { cursor_position, reply },
            Cmd::Close => CmdView::Close,
        }
    }
}

pub ghost enum EventView<U, M, P> {
    Done,
    Failed(Seq<char>),
    Rejected(Seq<char>),
    Zones { zones: Seq<Zone>, zone_set: u32 },
    BarriersSet { failed: Seq<u32> },
    EisConnected { raw_fd: i32 },
    Unclaimed,
    Activated(Activation),
    ZonesChanged,
    Command { cmd: CmdView<U, M, P>, activation_id: u32 },
    CommandsClosed,
}

impl<U, M, P> View for Event<U, M, P> {
    type V = EventView<U, M, P>;

    open spec fn view(&self) -> EventView<U, M, P> {
        match *self {
            Event::Done => EventView::Done,
            Event::Failed(why) => EventView::Failed(why@),
            Event::Rejected(why) => EventView::Rejected(why@),
            Event::Zones { zones, zone_set } => EventView::Zones { zones: zones@, zone_set },
            Event::BarriersSet { failed } => EventView::BarriersSet { failed: failed@ },
            Event::EisConnected { raw_fd } => EventView::EisConnected { raw_fd },
            Event::Unclaimed => EventView::Unclaimed,
            Event::Activated(a) => EventView::Activated(a),
            Event::ZonesChanged => EventView::ZonesChanged,
            Event::Command { cmd, activation_id } => EventView::Command {
                cmd: cmd@,
                activation_id,
            },
            Event::CommandsClosed => EventView::CommandsClosed,
        }
    }
}

/// A result with the characters of its error.
pub open spec fn outcome_view(result: Result<(), String>) -> Result<(), Seq<char>> {
    match result {
        Ok(()) => Ok(()),
        Err(why) => Err(why@),
    }
}

#[allow(inconsistent_fields)]
pub ghost enum RequestView<S, P> {
    Connect,
    CreateSession(InputKinds),
    ReadZones,
    SetBarriers { barriers: Seq<Barrier>, zone_set: u32 },
    ConnectEis,
    ReportSetup { to: S, result: SetupView },
    SubscribeActivated,
    SubscribeZonesChanged,
    NextEvent,
    Enable,
    Disable,
    Release { activation_id: Option<u32>, cursor_position: Option<(P, P)> },
    CloseSession,
    Finish { result: Result<(), Seq<char>> },
}

impl<S, P> View for Request<S, P> {
    type V = RequestView<S, P>;

    open spec fn view(&self) -> RequestView<S, P> {
        match *self {
            Request::Connect => RequestView::Connect,
            Request::CreateSession(kinds) => RequestView::CreateSession(kinds),
            Request::ReadZones => RequestView::ReadZones,
            Request::SetBarriers { barriers, zone_set } => RequestView::SetBarriers {
                barriers: barriers@,
                zone_set,
            },
            Request::ConnectEis => RequestView::ConnectEis,
            Request::ReportSetup { to, result } => RequestView::ReportSetup {
                to,
                result: result@,
            },
            Request::SubscribeActivated => RequestView::SubscribeActivated,
            Request::SubscribeZonesChanged => RequestView::SubscribeZonesChanged,
            Request::NextEvent => RequestView::NextEvent,
            Request::Enable => RequestView::Enable,
            Request::Disable => RequestView::Disable,
            Request::Release { activation_id, cursor_position } => RequestView::Release {
                activation_id,
                cursor_position,
            },
            Request::CloseSession => RequestView::CloseSession,
            Request::Finish { result } => RequestView::Finish { result: outcome_view(result) },
        }
    }
}

#[allow(inconsistent_fields)]
pub ghost enum EffectView<S, U, M> {
    Log(Seq<char>),
    Publish(Seq<SharedWrite>),
    CloseFd(i32),
    Reply { to: U, result: Result<(), Seq<char>> },
    ReplyMap { to: M, result: Result<Seq<(u32, Seq<char>)>, Seq<char>> },
    ReportFailure { to: S, reason: Seq<char> },
}

impl<S, U, M> View for Effect<S, U, M> {
    type V = EffectView<S, U, M>;

    open spec fn view(&self) -> EffectView<S, U, M> {
        match *self {
            Effect::Log(text) => EffectView::Log(text@),
            Effect::Publish(writes) => EffectView::Publish(writes@),
            Effect::CloseFd(fd) => EffectView::CloseFd(fd),
            Effect::Reply { to, result } => EffectView::Reply { to, result: outcome_view(result) },
            Effect::ReplyMap { to, result: Ok(map) } => EffectView::ReplyMap {
                to,
                result: Ok(map_view(map@)),
            },
            Effect::ReplyMap { to, result: Err(why) } => EffectView::ReplyMap {
                to,
                result: Err(why@),
            },
            Effect::ReportFailure { to, reason } => EffectView::ReportFailure {
                to,
                reason: reason@,
            },
        }
    }
}

pub ghost struct TurnView<S, U, M, P> {
    pub effect: Option<EffectView<S, U, M>>,
    pub request: RequestView<S, P>,
}

impl<S, U, M, P> View for Turn<S, U, M, P> {
    type V = TurnView<S, U, M, P>;

    open spec fn view(&self) -> TurnView<S, U, M, P> {
        TurnView {
            effect: match self.effect {
                Some(effect) => Some(effect@),
                None => None,
            },
            request: self.request@,
        }
    }
}

pub ghost enum PurposeView<M> {
    Setup,
    Refresh,
    Command { spec: SpecView, reply: M },
}

impl<M> View for Purpose<M> {
    type V = PurposeView<M>;

    open spec fn view(&self) -> PurposeView<M> {
        match *self {
            Purpose::Setup => PurposeView::Setup,
            Purpose::Refresh => PurposeView::Refresh,
            Purpose::Command { spec, reply } => PurposeView::Command { spec: spec@, reply },
        }
    }
}

pub ghost enum PhaseView<U, M> {
    Connecting,
    CreatingSession,
    ReadingZones { refresh: bool },
    Arming { requested: Seq<(u32, Seq<char>)>, purpose: PurposeView<M> },
    ConnectingEis { barrier_map: Seq<(u32, Seq<char>)> },
    Reporting { raw_fd: i32 },
    SubscribingActivated,
    SubscribingZonesChanged,
    Listening,
    Calling { reply: U },
    Stopping,
    Closing { result: Result<(), Seq<char>> },
    Finished,
}

impl<U, M> View for Phase<U, M> {
    type V = PhaseView<U, M>;

    open spec fn view(&self) -> PhaseView<U, M> {
        match *self {
            Phase::Connecting => PhaseView::Connecting,
            Phase::CreatingSession => PhaseView::CreatingSession,
            Phase::ReadingZones { refresh } => PhaseView::ReadingZones { refresh },
            Phase::Arming { requested, purpose } => PhaseView::Arming {
                requested: map_view(requested@),
                purpose: purpose@,
            },
            Phase::ConnectingEis { barrier_map } => PhaseView::ConnectingEis {
                barrier_map: map_view(barrier_map@),
            },
            Phase::Reporting { raw_fd } => PhaseView::Reporting { raw_fd },
            Phase::SubscribingActivated => PhaseView::SubscribingActivated,
            Phase::SubscribingZonesChanged => PhaseView::SubscribingZonesChanged,
            Phase::Listening => PhaseView::Listening,
            Phase::Calling { reply } => PhaseView::Calling { reply },
            Phase::Stopping => PhaseView::Stopping,
            Phase::Closing { result } => PhaseView::Closing { result: outcome_view(result) },
            Phase::Finished => PhaseView::Finished,
        }
    }
}

pub ghost struct TaskView<S, U, M> {
    pub report: Option<S>,
    pub spec: SpecView,
    pub phase: PhaseView<U, M>,
}

impl<S, U, M> View for PortalTask<S, U, M> {
    type V = TaskView<S, U, M>;

    open spec fn view(&self) -> TaskView<S, U, M> {
        TaskView { report: self.report.slot, spec: self.spec@, phase: self.phase@ }
    }
}

/// The outcome of one step: what the task and the session know afterwards, and what is to be
/// done.
pub ghost struct Step<S, U, M, P> {
    pub task: TaskView<S, U, M>,
    pub session: SessionView,
    pub turn: TurnView<S, U, M, P>,
}

// ---------------------------------------------------------------------------------------------
// Transitions
// ---------------------------------------------------------------------------------------------
/// Moves to a phase that waits for a request.
pub open spec fn go<S, U, M, P>(
    task: TaskView<S, U, M>,
    session: SessionView,
    phase: PhaseView<U, M>,
    effect: Option<EffectView<S, U, M>>,
    request: RequestView<S, P>,
) -> Step<S, U, M, P> {
    Step {
        task: TaskView { phase, ..task },
        session,
        turn: TurnView { effect, request },
    }
}

/// Goes back to waiting for signals and commands.
pub open spec fn listen<S, U, M, P>(
    task: TaskView<S, U, M>,
    session: SessionView,
    effect: Option<EffectView<S, U, M>>,
) -> Step<S, U, M, P> {
    go(task, session, PhaseView::Listening, effect, RequestView::NextEvent)
}

/// Gives the open session back, and remembers why.
pub open spec fn hang_up<S, U, M, P>(
    task: TaskView<S, U, M>,
    session: SessionView,
    effect: Option<EffectView<S, U, M>>,
    result: Result<(), Seq<char>>,
) -> Step<S, U, M, P> {
    go(task, session, PhaseView::Closing { result }, effect, RequestView::CloseSession)
}

/// Ends the task. A failure that nobody has heard of is reported to whoever waits for the setup.
pub open spec fn finish<S, U, M, P>(
    task: TaskView<S, U, M>,
    session: SessionView,
    result: Result<(), Seq<char>>,
) -> Step<S, U, M, P> {
    match (result, task.report) {
        (Err(reason), Some(to)) => go(
            TaskView { report: None, ..task },
            session,
            PhaseView::Finished,
            Some(EffectView::ReportFailure { to, reason }),
            RequestView::Finish { result },
        ),
        _ => go(task, session, PhaseView::Finished, None, RequestView::Finish { result }),
    }
}

/// Asks for the barriers of a specification, on the zones that the session knows.
pub open spec fn arm<S, U, M, P>(
    task: TaskView<S, U, M>,
    session: SessionView,
    spec: SpecView,
    purpose: PurposeView<M>,
) -> Step<S, U, M, P> {
    let lines = requested_lines(spec, session.zones);
    go(
        task,
        session,
        PhaseView::Arming { requested: barrier_labels(lines), purpose },
        None,
        RequestView::SetBarriers {
            barriers: portal_barriers(lines),
            zone_set: session.zone_set,
        },
    )
}

/// The text of a failed refresh.
pub open spec fn refresh_message(why: Seq<char>) -> Seq<char> {
    "pyinputcapture: zones changed but re-arming failed: "@ + why
}

/// Barriers could not be armed: a setup ends there, a refresh is given up, a command is answered
/// with the reason and leaves what was asked for before in force.
pub open spec fn arming_failed<S, U, M, P>(
    task: TaskView<S, U, M>,
    session: SessionView,
    purpose: PurposeView<M>,
    why: Seq<char>,
) -> Step<S, U, M, P> {
    match purpose {
        PurposeView::Setup => hang_up(task, session, None, Err(why)),
        PurposeView::Refresh => listen(
            task,
            session,
            Some(EffectView::Log(refresh_message(why))),
        ),
        PurposeView::Command { spec, reply } => listen(
            task,
            session,
            Some(EffectView::ReplyMap { to: reply, result: Err(why) }),
        ),
    }
}

/// Barriers were armed: the accepted ones are recorded, and a command's specification becomes
/// the one in force.
pub open spec fn arming_done<S, U, M, P>(
    task: TaskView<S, U, M>,
    session: SessionView,
    purpose: PurposeView<M>,
    map: Seq<(u32, Seq<char>)>,
) -> Step<S, U, M, P> {
    let session = SessionView { barrier_map: map, ..session };
    match purpose {
        PurposeView::Setup => go(
            task,
            session,
            PhaseView::ConnectingEis { barrier_map: map },
            None,
            RequestView::ConnectEis,
        ),
        PurposeView::Refresh => listen(
            task,
            session,
            Some(EffectView::Publish(generation_write_seq())),
        ),
        PurposeView::Command { spec, reply } => listen(
            TaskView { spec, ..task },
            session,
            Some(EffectView::ReplyMap { to: reply, result: Ok(map) }),
        ),
    }
}

/// What follows a command.
pub open spec fn obey<S, U, M, P>(
    task: TaskView<S, U, M>,
    session: SessionView,
    cmd: CmdView<U, M, P>,
    activation_id: u32,
) -> Step<S, U, M, P> {
    match cmd {
        CmdView::Enable(reply) => go(
            task,
            session,
            PhaseView::Calling { reply },
            None,
            RequestView::Enable,
        ),
        CmdView::Disable(reply) => go(
            task,
            session,
            PhaseView::Calling { reply },
            None,
            RequestView::Disable,
        ),
        CmdView::SetBarriers { spec, reply } => arm(
            task,
            session,
            spec,
            PurposeView::Command { spec, reply },
        ),
        CmdView::Release { cursor_position, reply } => go(
            task,
            session,
            PhaseView::Calling { reply },
            None,
            RequestView::Release {
                activation_id: some_activation(activation_id),
                cursor_position,
            },
        ),
        CmdView::Close => go(task, session, PhaseView::Stopping, None, RequestView::Disable),
    }
}

/// All the kinds of input that the portal can capture.
pub open spec fn all_kinds() -> InputKinds {
    InputKinds { keyboard: true, pointer: true, touchscreen: true }
}

/// What follows an event that `awaits` lets through.
pub open spec fn next<S, U, M, P>(
    task: TaskView<S, U, M>,
    session: SessionView,
    event: EventView<U, M, P>,
) -> Step<S, U, M, P> {
    match (task.phase, event) {
        (PhaseView::Connecting, EventView::Done) => go(
            task,
            session,
            PhaseView::CreatingSession,
            None,
            RequestView::CreateSession(all_kinds()),
        ),
        (PhaseView::Connecting, EventView::Failed(e)) => finish(
            task,
            session,
            Err("InputCapture::new: "@ + e),
        ),
        (PhaseView::CreatingSession, EventView::Done) => go(
            task,
            session,
            PhaseView::ReadingZones { refresh: false },
            None,
            RequestView::ReadZones,
        ),
        (PhaseView::CreatingSession, EventView::Failed(e)) => finish(
            task,
            session,
            Err("create_session: "@ + e),
        ),
        (PhaseView::ReadingZones { refresh }, EventView::Zones { zones, zone_set }) => arm(
            task,
            SessionView { zones, zone_set, ..session },
            task.spec,
            if refresh {
                PurposeView::Refresh
            } else {
                PurposeView::Setup
            },
        ),
        (PhaseView::ReadingZones { refresh }, EventView::Failed(e)) => arming_failed(
            task,
            session,
            if refresh {
                PurposeView::Refresh
            } else {
                PurposeView::Setup
            },
            "zones request: "@ + e,
        ),
        (PhaseView::ReadingZones { refresh }, EventView::Rejected(e)) => arming_failed(
            task,
            session,
            if refresh {
                PurposeView::Refresh
            } else {
                PurposeView::Setup
            },
            "zones response: "@ + e,
        ),
        (
            PhaseView::Arming { requested, purpose },
            EventView::BarriersSet { failed },
        ) => arming_done(task, session, purpose, armed(requested, failed)),
        (PhaseView::Arming { requested, purpose }, EventView::Failed(e)) => arming_failed(
            task,
            session,
            purpose,
            "set_pointer_barriers request: "@ + e,
        ),
        (PhaseView::Arming { requested, purpose }, EventView::Rejected(e)) => arming_failed(
            task,
            session,
            purpose,
            "set_pointer_barriers response: "@ + e,
        ),
        (
            PhaseView::ConnectingEis { barrier_map },
            EventView::EisConnected { raw_fd },
        ) => match task.report {
            Some(to) => go(
                TaskView { report: None, ..task },
                session,
                PhaseView::Reporting { raw_fd },
                None,
                RequestView::ReportSetup {
                    to,
                    result: SetupView { zones: session.zones, eis_raw_fd: raw_fd, barrier_map },
                },
            ),
            None => hang_up(
                task,
                session,
                Some(EffectView::CloseFd(raw_fd)),
                Err("setup already reported"@),
            ),
        },
        (PhaseView::ConnectingEis { barrier_map }, EventView::Failed(e)) => hang_up(
            task,
            session,
            None,
            Err("connect_to_eis: "@ + e),
        ),
        (PhaseView::Reporting { raw_fd }, EventView::Done) => go(
            task,
            session,
            PhaseView::SubscribingActivated,
            None,
            RequestView::SubscribeActivated,
        ),
        (PhaseView::Reporting { raw_fd }, EventView::Unclaimed) => hang_up(
            task,
            session,
            Some(EffectView::CloseFd(raw_fd)),
            Err("setup result channel closed"@),
        ),
        (PhaseView::SubscribingActivated, EventView::Done) => go(
            task,
            session,
            PhaseView::SubscribingZonesChanged,
            None,
            RequestView::SubscribeZonesChanged,
        ),
        (PhaseView::SubscribingActivated, EventView::Failed(e)) => hang_up(
            task,
            session,
            None,
            Err("receive_activated: "@ + e),
        ),
        (PhaseView::SubscribingZonesChanged, EventView::Done) => listen(task, session, None),
        (PhaseView::SubscribingZonesChanged, EventView::Failed(e)) => hang_up(
            task,
            session,
            None,
            Err("receive_zones_changed: "@ + e),
        ),
        (PhaseView::Listening, EventView::Activated(a)) => listen(
            task,
            session,
            Some(EffectView::Publish(activation_write_seq(a))),
        ),
        (PhaseView::Listening, EventView::ZonesChanged) => go(
            task,
            session,
            PhaseView::ReadingZones { refresh: true },
            None,
            RequestView::ReadZones,
        ),
        (PhaseView::Listening, EventView::Command { cmd, activation_id }) => obey(
            task,
            session,
            cmd,
            activation_id,
        ),
        (PhaseView::Listening, EventView::CommandsClosed) => go(
            task,
            session,
            PhaseView::Stopping,
            None,
            RequestView::Disable,
        ),
        (PhaseView::Calling { reply }, EventView::Done) => listen(
            task,
            session,
            Some(EffectView::Reply { to: reply, result: Ok(()) }),
        ),
        (PhaseView::Calling { reply }, EventView::Failed(e)) => listen(
            task,
            session,
            Some(EffectView::Reply { to: reply, result: Err(e) }),
        ),
        (PhaseView::Stopping, _) => hang_up(task, session, None, Ok(())),
        (PhaseView::Closing { result }, _) => finish(task, session, result),
        _ => arbitrary(),
    }
}

/// Which events can come in a phase: those that answer the request that was made.
pub open spec fn awaits<U, M, P>(phase: PhaseView<U, M>, event: EventView<U, M, P>) -> bool {
    match phase {
        PhaseView::Connecting
        | PhaseView::CreatingSession
        | PhaseView::SubscribingActivated
        | PhaseView::SubscribingZonesChanged
        | PhaseView::Calling { .. }
        | PhaseView::Stopping
        | PhaseView::Closing { .. } => event is Done || event is Failed,
        PhaseView::ReadingZones { .. } => event is Zones || event is Failed || event is Rejected,
        PhaseView::Arming { .. } => event is BarriersSet || event is Failed || event is Rejected,
        PhaseView::ConnectingEis { .. } => event is EisConnected || event is Failed,
        PhaseView::Reporting { .. } => event is Done || event is Unclaimed,
        PhaseView::Listening => event is Activated || event is ZonesChanged || event is Command
            || event is CommandsClosed,
        PhaseView::Finished => false,
    }
}

/// Whether an event can be handled: it answers the request that was made, and any barriers that
/// follow from it can be computed and numbered.
pub open spec fn admissible<S, U, M, P>(
    task: TaskView<S, U, M>,
    session: SessionView,
    event: EventView<U, M, P>,
) -> bool {
    &&& awaits(task.phase, event)
    &&& event matches EventView::Zones { zones, .. } ==> spec_fits(task.spec, zones)
    &&& event matches EventView::Command { cmd: CmdView::SetBarriers { spec, .. }, .. }
        ==> spec_fits(spec, session.zones)
}

/// The task before anything has happened.
pub open spec fn initial<S, U, M>(sender: S, spec: SpecView) -> TaskView<S, U, M> {
    TaskView { report: Some(sender), spec, phase: PhaseView::Connecting }
}

// ---------------------------------------------------------------------------------------------
// The task
// ---------------------------------------------------------------------------------------------
impl<S, U, M> PortalTask<S, U, M> {
    /// Starts a task that arms these edges and reports its setup to `sender`.
    pub fn start<P>(sender: S, active_edges: Option<Vec<String>>) -> (r: (
        Self,
        Turn<S, U, M, P>,
    ))
        ensures
            r.0@ == initial::<S, U, M>(sender, BarrierSpec::Edges(active_edges)@),
            r.1@ == (TurnView::<S, U, M, P> { effect: None, request: RequestView::Connect }),
            r.0.report.slot == Some(sender),
            r.0.spec == BarrierSpec::Edges(active_edges),
            r.0.phase is Connecting,
            r.1.effect is None,
            r.1.request is Connect,
    {
        (
            PortalTask {
                report: SetupReport::new(sender),
                spec: BarrierSpec::Edges(active_edges),
                phase: Phase::Connecting,
            },
            Turn { effect: None, request: Request::Connect },
        )
    }

    /// Whether an event can be handled now.
    pub fn admits<P>(&self, session: &SessionState, event: &Event<U, M, P>) -> (r: bool)
        ensures
            r == admissible(self@, session@, event@),
    {
        let awaited: bool = match &self.phase {
            Phase::Connecting
            | Phase::CreatingSession
            | Phase::SubscribingActivated
            | Phase::SubscribingZonesChanged
            | Phase::Calling { .. }
            | Phase::Stopping
            | Phase::Closing { .. } => matches!(event, Event::Done | Event::Failed(_)),
            Phase::ReadingZones { .. } => matches!(
                event,
                Event::Zones { .. } | Event::Failed(_) | Event::Rejected(_)
            ),
            Phase::Arming { .. } => matches!(
                event,
                Event::BarriersSet { .. } | Event::Failed(_) | Event::Rejected(_)
            ),
            Phase::ConnectingEis { .. } => matches!(
                event,
                Event::EisConnected { .. } | Event::Failed(_)
            ),
            Phase::Reporting { .. } => matches!(event, Event::Done | Event::Unclaimed),
            Phase::Listening => matches!(
                event,
                Event::Activated(_) | Event::ZonesChanged | Event::Command { .. }
                | Event::CommandsClosed
            ),
            Phase::Finished => false,
        };
        if !awaited {
            return false;
        }
        match event {
            Event::Zones { zones, .. } => can_build(&self.spec, zones.as_slice()),
            Event::Command { cmd: Cmd::SetBarriers { spec, .. }, .. } => can_build(
                spec,
                session.zones.as_slice(),
            ),
            _ => true,
        }
    }

    fn go<P>(
        &mut self,
        phase: Phase<U, M>,
        effect: Option<Effect<S, U, M>>,
        request: Request<S, P>,
    ) -> (turn: Turn<S, U, M, P>)
        ensures
            final(self)@ == (TaskView { phase: phase@, ..old(self)@ }),
            turn == (Turn { effect, request }),
    {
        self.phase = phase;
        Turn { effect, request }
    }

    fn finish<P>(&mut self, result: Result<(), String>, Ghost(session): Ghost<SessionView>) -> (
    turn: Turn<S, U, M, P>)
        ensures
            ({
                let step = finish::<S, U, M, P>(old(self)@, session, outcome_view(result));
                final(self)@ == step.task && turn@ == step.turn
            }),
    {
        let effect: Option<Effect<S, U, M>> = match self.report.take_for_failure(&result) {
            Some((to, reason)) => Some(Effect::ReportFailure { to, reason }),
            None => None,
        };
        self.go(Phase::Finished, effect, Request::Finish { result })
    }

    fn arm<P>(
        &mut self,
        session: &SessionState,
        requested: BarrierMap,
        barriers: Vec<Barrier>,
        purpose: Purpose<M>,
    ) -> (turn: Turn<S, U, M, P>)
        ensures
            final(self)@ == (TaskView {
                phase: PhaseView::Arming { requested: map_view(requested@), purpose: purpose@ },
                ..old(self)@
            }),
            turn@ == (TurnView::<S, U, M, P> {
                effect: None,
                request: RequestView::SetBarriers {
                    barriers: barriers@,
                    zone_set: session.zone_set,
                },
            }),
    {
        self.go(
            Phase::Arming { requested, purpose },
            None,
            Request::SetBarriers { barriers, zone_set: session.zone_set },
        )
    }

    fn arming_failed<P>(
        &mut self,
        purpose: Purpose<M>,
        why: String,
        Ghost(session): Ghost<SessionView>,
    ) -> (turn: Turn<S, U, M, P>)
        ensures
            ({
                let step = arming_failed::<S, U, M, P>(old(self)@, session, purpose@, why@);
                final(self)@ == step.task && turn@ == step.turn
            }),
    {
        match purpose {
            Purpose::Setup => self.go(
                Phase::Closing { result: Err(why) },
                None,
                Request::CloseSession,
            ),
            Purpose::Refresh => {
                let text: String = joined(
                    "pyinputcapture: zones changed but re-arming failed: ",
                    &why,
                );
                self.go(Phase::Listening, Some(Effect::Log(text)), Request::NextEvent)
            },
            Purpose::Command { spec: _, reply } => self.go(
                Phase::Listening,
                Some(Effect::ReplyMap { to: reply, result: Err(why) }),
                Request::NextEvent,
            ),
        }
    }

    fn arming_done<P>(
        &mut self,
        session: &mut SessionState,
        requested: BarrierMap,
        purpose: Purpose<M>,
        failed: Vec<u32>,
    ) -> (turn: Turn<S, U, M, P>)
        ensures
            ({
                let step = arming_done::<S, U, M, P>(
                    old(self)@,
                    old(session)@,
                    purpose@,
                    armed(map_view(requested@), failed@),
                );
                final(self)@ == step.task && final(session)@ == step.session && turn@ == step.turn
            }),
    {
        let map: BarrierMap = session.record_armed(&requested, failed.as_slice());
        match purpose {
            Purpose::Setup => self.go(
                Phase::ConnectingEis { barrier_map: map },
                None,
                Request::ConnectEis,
            ),
            Purpose::Refresh => self.go(
                Phase::Listening,
                Some(Effect::Publish(generation_writes())),
                Request::NextEvent,
            ),
            Purpose::Command { spec, reply } => {
                self.spec = spec;
                self.go(
                    Phase::Listening,
                    Some(Effect::ReplyMap { to: reply, result: Ok(map) }),
                    Request::NextEvent,
                )
            },
        }
    }

    fn obey<P>(
        &mut self,
        session: &SessionState,
        cmd: Cmd<U, M, P>,
        activation_id: u32,
    ) -> (turn: Turn<S, U, M, P>)
        requires
            cmd@ matches CmdView::SetBarriers { spec, .. } ==> spec_fits(spec, session@.zones),
        ensures
            ({
                let step = obey::<S, U, M, P>(old(self)@, session@, cmd@, activation_id);
                final(self)@ == step.task && session@ == step.session && turn@ == step.turn
            }),
    {
        match cmd {
            Cmd::Enable(reply) => self.go(Phase::Calling { reply }, None, Request::Enable),
            Cmd::Disable(reply) => self.go(Phase::Calling { reply }, None, Request::Disable),
            Cmd::SetBarriers { spec, reply } => {
                let (barriers, requested): (Vec<Barrier>, BarrierMap) = build(
                    &spec,
                    session.zones.as_slice(),
                );
                self.arm(session, requested, barriers, Purpose::Command { spec, reply })
            },
            Cmd::Release { cursor_position, reply } => self.go(
                Phase::Calling { reply },
                None,
                Request::Release {
                    activation_id: current_activation(activation_id),
                    cursor_position,
                },
            ),
            Cmd::Close => self.go(Phase::Stopping, None, Request::Disable),
        }
    }

    /// Handles an event, and says what to do next.
    pub fn on_event<P>(&mut self, session: &mut SessionState, event: Event<U, M, P>) -> (turn: Turn<
        S,
        U,
        M,
        P,
    >)
        requires
            admissible(old(self)@, old(session)@, event@),
        ensures
            final(self)@ == next::<S, U, M, P>(old(self)@, old(session)@, event@).task,
            final(session)@ == next::<S, U, M, P>(old(self)@, old(session)@, event@).session,
            turn@ == next::<S, U, M, P>(old(self)@, old(session)@, event@).turn,
    {
        let mut phase: Phase<U, M> = Phase::Finished;
        std::mem::swap(&mut self.phase, &mut phase);
        let ghost known = session@;
        match (phase, event) {
            (Phase::Connecting, Event::Done) => {
                let kinds: InputKinds = InputKinds {
                    keyboard: true,
                    pointer: true,
                    touchscreen: true,
                };
                self.go(Phase::CreatingSession, None, Request::CreateSession(kinds))
            },
            (Phase::Connecting, Event::Failed(e)) => self.finish(
                Err(joined("InputCapture::new: ", &e)),
                Ghost(known),
            ),
            (Phase::CreatingSession, Event::Done) => self.go(
                Phase::ReadingZones { refresh: false },
                None,
                Request::ReadZones,
            ),
            (Phase::CreatingSession, Event::Failed(e)) => self.finish(
                Err(joined("create_session: ", &e)),
                Ghost(known),
            ),
            (Phase::ReadingZones { refresh }, Event::Zones { zones, zone_set }) => {
                session.record_zones(zones, zone_set);
                let (barriers, requested): (Vec<Barrier>, BarrierMap) = build(
                    &self.spec,
                    session.zones.as_slice(),
                );
                let purpose: Purpose<M> = if refresh {
                    Purpose::Refresh
                } else {
                    Purpose::Setup
                };
                self.arm(session, requested, barriers, purpose)
            },
            (Phase::ReadingZones { refresh }, Event::Failed(e)) => {
                let purpose: Purpose<M> = if refresh {
                    Purpose::Refresh
                } else {
                    Purpose::Setup
                };
                self.arming_failed(purpose, joined("zones request: ", &e), Ghost(known))
            },
            (Phase::ReadingZones { refresh }, Event::Rejected(e)) => {
                let purpose: Purpose<M> = if refresh {
                    Purpose::Refresh
                } else {
                    Purpose::Setup
                };
                self.arming_failed(purpose, joined("zones response: ", &e), Ghost(known))
            },
            (
                Phase::Arming { requested, purpose },
                Event::BarriersSet { failed },
            ) => self.arming_done(session, requested, purpose, failed),
            (Phase::Arming { requested: _, purpose }, Event::Failed(e)) => self.arming_failed(
                purpose,
                joined("set_pointer_barriers request: ", &e),
                Ghost(known),
            ),
            (Phase::Arming { requested: _, purpose }, Event::Rejected(e)) => self.arming_failed(
                purpose,
                joined("set_pointer_barriers response: ", &e),
                Ghost(known),
            ),
            (Phase::ConnectingEis { barrier_map }, Event::EisConnected { raw_fd }) => {
                match self.report.take() {
                    Ok(to) => {
                        let result: SetupResult = SetupResult {
                            zones: clone_zones(&session.zones),
                            eis_raw_fd: raw_fd,
                            barrier_map,
                        };
                        self.go(
                            Phase::Reporting { raw_fd },
                            None,
                            Request::ReportSetup { to, result },
                        )
                    },
                    Err(why) => self.go(
                        Phase::Closing { result: Err(why) },
                        Some(Effect::CloseFd(raw_fd)),
                        Request::CloseSession,
                    ),
                }
            },
            (Phase::ConnectingEis { barrier_map: _ }, Event::Failed(e)) => self.go(
                Phase::Closing { result: Err(joined("connect_to_eis: ", &e)) },
                None,
                Request::CloseSession,
            ),
            (Phase::Reporting { raw_fd: _ }, Event::Done) => self.go(
                Phase::SubscribingActivated,
                None,
                Request::SubscribeActivated,
            ),
            (Phase::Reporting { raw_fd }, Event::Unclaimed) => self.go(
                Phase::Closing { result: Err("setup result channel closed".to_string()) },
                Some(Effect::CloseFd(raw_fd)),
                Request::CloseSession,
            ),
            (Phase::SubscribingActivated, Event::Done) => self.go(
                Phase::SubscribingZonesChanged,
                None,
                Request::SubscribeZonesChanged,
            ),
            (Phase::SubscribingActivated, Event::Failed(e)) => self.go(
                Phase::Closing { result: Err(joined("receive_activated: ", &e)) },
                None,
                Request::CloseSession,
            ),
            (Phase::SubscribingZonesChanged, Event::Done) => self.go(
                Phase::Listening,
                None,
                Request::NextEvent,
            ),
            (Phase::SubscribingZonesChanged, Event::Failed(e)) => self.go(
                Phase::Closing { result: Err(joined("receive_zones_changed: ", &e)) },
                None,
                Request::CloseSession,
            ),
            (Phase::Listening, Event::Activated(a)) => self.go(
                Phase::Listening,
                Some(Effect::Publish(activation_writes(&a))),
                Request::NextEvent,
            ),
            (Phase::Listening, Event::ZonesChanged) => self.go(
                Phase::ReadingZones { refresh: true },
                None,
                Request::ReadZones,
            ),
            (Phase::Listening, Event::Command { cmd, activation_id }) => self.obey(
                session,
                cmd,
                activation_id,
            ),
            (Phase::Listening, Event::CommandsClosed) => self.go(
                Phase::Stopping,
                None,
                Request::Disable,
            ),
            (Phase::Calling { reply }, Event::Done) => self.go(
                Phase::Listening,
                Some(Effect::Reply { to: reply, result: Ok(()) }),
                Request::NextEvent,
            ),
            (Phase::Calling { reply }, Event::Failed(e)) => self.go(
                Phase::Listening,
                Some(Effect::Reply { to: reply, result: Err(e) }),
                Request::NextEvent,
            ),
            (Phase::Stopping, _) => self.go(
                Phase::Closing { result: Ok(()) },
                None,
                Request::CloseSession,
            ),
            (Phase::Closing { result }, _) => self.finish(result, Ghost(known)),
            _ => vstd::pervasive::unreached(),
        }
    }
}

// ---------------------------------------------------------------------------------------------
// Laws
// ---------------------------------------------------------------------------------------------
/// A command is taken as it comes, with its reply handle and its arguments.
pub proof fn law_commands_are_read_verbatim<U, M, P>(
    to: U,
    map_to: M,
    spec: BarrierSpec,
    cursor_position: Option<(P, P)>,
)
    ensures
        Cmd::<U, M, P>::Enable(to)@ == CmdView::<U, M, P>::Enable(to),
        Cmd::<U, M, P>::Disable(to)@ == CmdView::<U, M, P>::Disable(to),
        (Cmd::<U, M, P>::SetBarriers { spec, reply: map_to })@ == (CmdView::<
            U,
            M,
            P,
        >::SetBarriers { spec: spec@, reply: map_to }),
        (Cmd::<U, M, P>::Release { cursor_position, reply: to })@ == (CmdView::<U, M, P>::Release {
            cursor_position,
            reply: to,
        }),
        Cmd::<U, M, P>::Close@ == CmdView::<U, M, P>::Close,
{
}

/// An event is taken as it comes, with all that it says.
pub proof fn law_events_are_read_verbatim<U, M, P>(
    why: String,
    zones: Vec<Zone>,
    zone_set: u32,
    failed: Vec<u32>,
    raw_fd: i32,
    a: Activation,
    cmd: Cmd<U, M, P>,
    activation_id: u32,
)
    ensures
        Event::<U, M, P>::Done@ == EventView::<U, M, P>::Done,
        Event::<U, M, P>::Failed(why)@ == EventView::<U, M, P>::Failed(why@),
        Event::<U, M, P>::Rejected(why)@ == EventView::<U, M, P>::Rejected(why@),
        (Event::<U, M, P>::Zones { zones, zone_set })@ == (EventView::<U, M, P>::Zones {
            zones: zones@,
            zone_set,
        }),
        (Event::<U, M, P>::BarriersSet { failed })@ == (EventView::<U, M, P>::BarriersSet {
            failed: failed@,
        }),
        (Event::<U, M, P>::EisConnected { raw_fd })@ == (EventView::<U, M, P>::EisConnected {
            raw_fd,
        }),
        Event::<U, M, P>::Unclaimed@ == EventView::<U, M, P>::Unclaimed,
        Event::<U, M, P>::Activated(a)@ == EventView::<U, M, P>::Activated(a),
        Event::<U, M, P>::ZonesChanged@ == EventView::<U, M, P>::ZonesChanged,
        (Event::<U, M, P>::Command { cmd, activation_id })@ == (EventView::<U, M, P>::Command {
            cmd: cmd@,
            activation_id,
        }),
        Event::<U, M, P>::CommandsClosed@ == EventView::<U, M, P>::CommandsClosed,
{
}

/// A request is what it reads as, with all that goes to the portal or to the caller.
pub proof fn law_turns_are_read_verbatim<S, U, M, P>(
    turn: Turn<S, U, M, P>,
)
    ensures
        match (turn.request, turn@.request) {
            (Request::Connect, RequestView::Connect) => true,
            (Request::CreateSession(x), RequestView::CreateSession(y)) => x == y,
            (Request::ReadZones, RequestView::ReadZones) => true,
            (
                Request::SetBarriers { barriers, zone_set },
                RequestView::SetBarriers { barriers: sent, zone_set: under },
            ) => barriers@ == sent && zone_set == under,
            (Request::ConnectEis, RequestView::ConnectEis) => true,
            (
                Request::ReportSetup { to, result },
                RequestView::ReportSetup { to: whom, result: what },
            ) => to == whom && what.zones == result.zones@ && what.eis_raw_fd == result.eis_raw_fd
                && what.barrier_map == map_view(result.barrier_map@),
            (Request::SubscribeActivated, RequestView::SubscribeActivated) => true,
            (Request::SubscribeZonesChanged, RequestView::SubscribeZonesChanged) => true,
            (Request::NextEvent, RequestView::NextEvent) => true,
            (Request::Enable, RequestView::Enable) => true,
            (Request::Disable, RequestView::Disable) => true,
            (
                Request::Release { activation_id, cursor_position },
                RequestView::Release { activation_id: id, cursor_position: at },
            ) => activation_id == id && cursor_position == at,
            (Request::CloseSession, RequestView::CloseSession) => true,
            (Request::Finish { result: Ok(()) }, RequestView::Finish { result: Ok(()) }) => true,
            (
                Request::Finish { result: Err(reason) },
                RequestView::Finish { result: Err(told) },
            ) => reason@ == told,
            _ => false,
        },
        turn.effect is None <==> turn@.effect is None,
        turn.effect is Some ==> match (turn.effect->0, turn@.effect->0) {
            (Effect::Log(text), EffectView::Log(told)) => text@ == told,
            (Effect::Publish(writes), EffectView::Publish(made)) => writes@ == made,
            (Effect::CloseFd(fd), EffectView::CloseFd(closed)) => fd == closed,
            (
                Effect::Reply { to, result: Ok(()) },
                EffectView::Reply { to: whom, result: Ok(()) },
            ) => to == whom,
            (
                Effect::Reply { to, result: Err(reason) },
                EffectView::Reply { to: whom, result: Err(told) },
            ) => to == whom && reason@ == told,
            (
                Effect::ReplyMap { to, result: Ok(armed_map) },
                EffectView::ReplyMap { to: whom, result: Ok(told) },
            ) => to == whom && told == map_view(armed_map@),
            (
                Effect::ReplyMap { to, result: Err(reason) },
                EffectView::ReplyMap { to: whom, result: Err(told) },
            ) => to == whom && reason@ == told,
            (
                Effect::ReportFailure { to, reason },
                EffectView::ReportFailure { to: whom, reason: told },
            ) => to == whom && reason@ == told,
            _ => false,
        },
{
}

/// What a task remembers is what it holds: whom it owes its report, which barriers are in force,
/// and its phase with everything in it.
pub proof fn law_tasks_are_read_verbatim<S, U, M>(task: PortalTask<S, U, M>)
    ensures
        task@.report == task.report.slot,
        task@.spec == task.spec@,
        match (task.phase, task@.phase) {
            (Phase::Connecting, PhaseView::Connecting) => true,
            (Phase::CreatingSession, PhaseView::CreatingSession) => true,
            (Phase::ReadingZones { refresh }, PhaseView::ReadingZones { refresh: again }) => refresh
                == again,
            (
                Phase::Arming { requested, purpose },
                PhaseView::Arming { requested: asked, purpose: why },
            ) => map_view(requested@) == asked && match (purpose, why) {
                (Purpose::Setup, PurposeView::Setup) => true,
                (Purpose::Refresh, PurposeView::Refresh) => true,
                (
                    Purpose::Command { spec, reply },
                    PurposeView::Command { spec: wanted, reply: to },
                ) => spec@ == wanted && reply == to,
                _ => false,
            },
            (Phase::ConnectingEis { barrier_map }, PhaseView::ConnectingEis { barrier_map: map }) => {
                map_view(barrier_map@) == map
            },
            (Phase::Reporting { raw_fd }, PhaseView::Reporting { raw_fd: fd }) => raw_fd == fd,
            (Phase::SubscribingActivated, PhaseView::SubscribingActivated) => true,
            (Phase::SubscribingZonesChanged, PhaseView::SubscribingZonesChanged) => true,
            (Phase::Listening, PhaseView::Listening) => true,
            (Phase::Calling { reply }, PhaseView::Calling { reply: to }) => reply == to,
            (Phase::Stopping, PhaseView::Stopping) => true,
            (Phase::Closing { result: Ok(()) }, PhaseView::Closing { result: Ok(()) }) => true,
            (
                Phase::Closing { result: Err(reason) },
                PhaseView::Closing { result: Err(told) },
            ) => reason@ == told,
            (Phase::Finished, PhaseView::Finished) => true,
            _ => false,
        },
{
}

} // verus!
