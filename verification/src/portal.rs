//! The caller's side: which calls are possible when, and what they ask for.

use crate::activation::{
    after_all, law_reset, reset_write_seq, reset_writes, SharedActivation, SharedWrite,
};
use crate::barriers::{axis_aligned, skew_message, validate_segments, Segment};
use crate::calls::{CallError, ErrorView};
use crate::session::{blank_session, BarrierSpec, SessionState};
use crate::setup::{
    deadline_from, deadline_nanos, is_infinite, is_nan, is_not_positive,
    law_deadlines_keep_their_length, law_float_bits_are_sorted, not_positive_message, Seconds,
    SetupResult,
};
use vstd::arithmetic::power2::*;
use vstd::prelude::*;

verus! {

/// A handle on the portal. `T` is the way to send commands to a running task, `J` the way to
/// look after a task whose setup failed.
#[derive(Debug)]
pub struct InputCapturePortal<T, J> {
    /// Present while a session is set up.
    pub cmd_tx: Option<T>,
    /// A task of a failed setup that may still be finishing. Starting a second one meanwhile
    /// would leave two sessions alive, only one of them reachable.
    pub pending: Option<J>,
}

/// How to go about a setup.
#[derive(Debug)]
pub struct SetupPlan {
    /// How long to wait for it, in nanoseconds; `None` is forever.
    pub deadline: Option<u64>,
    /// What to write to the shared cells before the task starts.
    pub writes: Vec<SharedWrite>,
}

/// The reason that stands against a timeout.
pub open spec fn timeout_refusal(timeout: Option<Seconds>) -> Option<ErrorView> {
    match timeout {
        None => None,
        Some(t) => if is_nan(t.bits) {
            Some(
                ErrorView::ValueError("timeout must be a number of seconds or None, not NaN"@),
            )
        } else if is_not_positive(t.bits) {
            Some(ErrorView::ValueError(not_positive_message(t.text@)))
        } else {
            None
        },
    }
}

/// The deadline that a timeout stands for, where nothing stands against it.
pub open spec fn timeout_deadline(timeout: Option<Seconds>) -> Option<u64> {
    match timeout {
        None => None,
        Some(t) => if is_infinite(t.bits) {
            None
        } else {
            Some(deadline_nanos(t.bits) as u64)
        },
    }
}

/// The text for a setup that comes too early after a failed one.
pub open spec fn still_winding_down() -> Seq<char> {
    "a previous setup is still winding down (the portal has not answered it yet); retry once it has"@
}

/// The reason that stands against a setup, the first that applies.
pub open spec fn setup_refusal(
    timeout: Option<Seconds>,
    set_up: bool,
    winding_down: bool,
) -> Option<ErrorView> {
    match timeout_refusal(timeout) {
        Some(refusal) => Some(refusal),
        None => if set_up {
            Some(ErrorView::RuntimeError("already set up"@))
        } else if winding_down {
            Some(ErrorView::RuntimeError(still_winding_down()))
        } else {
            None
        },
    }
}

/// The reason that stands against a request for barriers on its own account.
pub open spec fn is_barrier_refusal(
    edges: Option<Vec<String>>,
    segments: Option<Vec<Segment>>,
    refusal: ErrorView,
) -> bool {
    if edges is Some && segments is Some {
        refusal == ErrorView::TypeError("pass either edges or segments, not both"@)
    } else {
        exists|i: int|
            {
                &&& segments is Some
                &&& 0 <= i < segments->0@.len()
                &&& !axis_aligned(#[trigger] segments->0@[i])
                &&& forall|j: int| 0 <= j < i ==> axis_aligned(#[trigger] segments->0@[j])
                &&& refusal == ErrorView::ValueError(skew_message(i, segments->0@[i]))
            }
    }
}

/// Whether a request for barriers is sound: not described in two ways, and without a skewed
/// segment.
pub open spec fn is_sound_request(
    edges: Option<Vec<String>>,
    segments: Option<Vec<Segment>>,
) -> bool {
    &&& !(edges is Some && segments is Some)
    &&& segments matches Some(s) ==> forall|i: int|
        0 <= i < s@.len() ==> axis_aligned(#[trigger] s@[i])
}

/// A cursor position, where both coordinates are given.
pub fn cursor_target<P>(cursor_x: Option<P>, cursor_y: Option<P>) -> (r: Option<(P, P)>)
    ensures
        match (cursor_x, cursor_y) {
            (Some(x), Some(y)) => r == Some((x, y)),
            _ => r is None,
        },
{
    match (cursor_x, cursor_y) {
        (Some(x), Some(y)) => Some((x, y)),
        _ => None,
    }
}

impl<T, J> InputCapturePortal<T, J> {
    /// Whether the handle is in order: a session that is set up and a failed setup that may
    /// still be finishing exclude each other.
    pub open spec fn well_formed(self) -> bool {
        self.cmd_tx is None || self.pending is None
    }

    /// Whether the task of a failed setup may still be creating a session.
    pub open spec fn is_winding_down(self, pending_finished: bool) -> bool {
        self.pending is Some && !pending_finished
    }

    /// The handle once a setup has begun.
    pub open spec fn after_begin(self) -> Self {
        InputCapturePortal { pending: None, ..self }
    }

    /// The handle once a setup is settled: a success keeps the sender, a failure the task.
    pub open spec fn after_setup(self, cmd_tx: T, task: J, succeeded: bool) -> Self {
        if succeeded {
            InputCapturePortal { cmd_tx: Some(cmd_tx), pending: None }
        } else {
            InputCapturePortal { pending: Some(task), ..self }
        }
    }

    /// The handle once the session is given up.
    pub open spec fn after_close(self) -> Self {
        InputCapturePortal { cmd_tx: None, ..self }
    }

    /// The reason that stands against every command.
    pub open spec fn command_refusal(self) -> Option<ErrorView> {
        match self.cmd_tx {
            Some(_) => None,
            None => Some(ErrorView::RuntimeError("not set up"@)),
        }
    }

    /// A handle without a session.
    pub fn new() -> (r: Self)
        ensures
            r.well_formed(),
            r.cmd_tx is None,
            r.pending is None,
    {
        InputCapturePortal { cmd_tx: None, pending: None }
    }

    /// The way to send commands, while a session is set up.
    pub fn sender(&self) -> (r: Result<&T, CallError>)
        ensures
            match self.command_refusal() {
                None => r matches Ok(tx) && self.cmd_tx == Some(*tx),
                Some(refusal) => r matches Err(e) && e@ == refusal,
            },
            r is Ok <==> self.cmd_tx is Some,
            r matches Err(e) ==> e@ == ErrorView::RuntimeError("not set up"@),
    {
        match &self.cmd_tx {
            Some(tx) => Ok(tx),
            None => Err(CallError::RuntimeError("not set up".to_string())),
        }
    }

    /// Decides whether a setup may start, and clears what an earlier session left behind.
    /// `pending_finished` says whether the task of the last failed setup is over.
    pub fn begin_setup(
        &mut self,
        session: &mut SessionState,
        timeout: &Option<Seconds>,
        pending_finished: bool,
    ) -> (r: Result<SetupPlan, CallError>)
        ensures
            match setup_refusal(
                *timeout,
                old(self).cmd_tx is Some,
                old(self).is_winding_down(pending_finished),
            ) {
                Some(refusal) => {
                    &&& r matches Err(e)
                    &&& e@ == refusal
                    &&& *final(self) == *old(self)
                    &&& *final(session) == *old(session)
                },
                None => {
                    &&& r matches Ok(plan)
                    &&& plan.deadline == timeout_deadline(*timeout)
                    &&& plan.writes@ == reset_write_seq()
                    &&& *final(self) == old(self).after_begin()
                    &&& final(session)@ == blank_session()
                },
            },
            // A setup starts exactly where the timeout is a positive number or there is none, no
            // session is set up, and no failed setup is winding down.
            r is Ok <==> {
                &&& *timeout matches Some(t) ==> 0 < t.bits <= 0x7ff0_0000_0000_0000
                &&& old(self).cmd_tx is None
                &&& old(self).pending is None || pending_finished
            },
            // It is waited for as long as the caller said: forever without a timeout or with an
            // infinite one, else for the nanoseconds of the timeout, at most half of one off, up
            // to the longest wait.
            r matches Ok(plan) ==> match *timeout {
                None => plan.deadline is None,
                Some(t) => {
                    let e: int = t.bits as int / 0x10_0000_0000_0000;
                    let f: int = t.bits as int % 0x10_0000_0000_0000;
                    let s: int = if e == 0 {
                        f
                    } else {
                        f + 0x10_0000_0000_0000
                    };
                    let h: int = if e == 0 {
                        1074
                    } else {
                        1075 - e
                    };
                    if t.bits == 0x7ff0_0000_0000_0000 {
                        plan.deadline is None
                    } else if h > 0 && s <= 18_446_744_073 * pow2(h as nat) {
                        &&& plan.deadline matches Some(n)
                        &&& -pow2(h as nat) <= 2 * n * pow2(h as nat) - 2 * (s * 1_000_000_000)
                            <= pow2(h as nat)
                    } else {
                        plan.deadline == Some(18_446_744_073_000_000_000u64)
                    }
                },
            },
            // It finds nothing of an earlier session.
            r matches Ok(plan) ==> {
                &&& final(self).cmd_tx is None
                &&& final(self).pending is None
                &&& final(session).zones@.len() == 0
                &&& final(session).barrier_map@.len() == 0
                &&& final(session).zone_set == 0
                &&& forall|cells: SharedActivation| #[trigger]
                    after_all(cells, plan.writes@) == (SharedActivation {
                        activation_id: 0,
                        barrier_id: 0,
                        zones_generation: 0,
                        ..cells
                    })
            },
    {
        proof {
            if let Some(t) = timeout {
                law_float_bits_are_sorted(t.bits);
            }
        }
        let deadline: Option<u64> = match deadline_from(timeout) {
            Ok(deadline) => deadline,
            Err(e) => {
                return Err(e);
            },
        };
        if self.cmd_tx.is_some() {
            return Err(CallError::RuntimeError("already set up".to_string()));
        }
        if self.pending.is_some() && !pending_finished {
            return Err(
                CallError::RuntimeError(
                    "a previous setup is still winding down (the portal has not answered it yet); retry once it has".to_string(),
                ),
            );
        }
        self.pending = None;
        *session = SessionState::default();
        proof {
            if let Some(t) = timeout {
                if t.bits < 0x7ff0_0000_0000_0000 {
                    let e: int = t.bits as int / 0x10_0000_0000_0000;
                    let f: int = t.bits as int % 0x10_0000_0000_0000;
                    law_timeouts_keep_their_length(*timeout, e, f);
                }
            }
            assert forall|cells: SharedActivation| #[trigger]
                after_all(cells, reset_write_seq()) == (SharedActivation {
                    activation_id: 0,
                    barrier_id: 0,
                    zones_generation: 0,
                    ..cells
                }) by {
                law_reset(cells);
            }
            assert(session@.zones.len() == 0);
            assert(session@.barrier_map.len() == 0);
        }
        Ok(SetupPlan { deadline, writes: reset_writes() })
    }

    /// Settles a setup: a success keeps the way to send commands, a failure drops it, which
    /// the task reads as a request to close, and keeps the task until it is over.
    pub fn finish_setup<E>(
        &mut self,
        cmd_tx: T,
        task: J,
        outcome: Result<SetupResult, E>,
    ) -> (r: Result<SetupResult, E>)
        ensures
            r == outcome,
            *final(self) == old(self).after_setup(cmd_tx, task, outcome is Ok),
            outcome is Ok ==> final(self).cmd_tx == Some(cmd_tx) && final(self).pending is None,
            outcome is Err ==> final(self).cmd_tx == old(self).cmd_tx && final(self).pending == Some(
                task,
            ),
    {
        match outcome {
            Ok(result) => {
                self.cmd_tx = Some(cmd_tx);
                self.pending = None;
                Ok(result)
            },
            Err(e) => {
                self.pending = Some(task);
                Err(e)
            },
        }
    }

    /// Decides on a request to replace the armed barriers. The two ways to describe them
    /// exclude each other, and skewed segments are refused before anything is sent.
    pub fn set_barriers(
        &self,
        edges: Option<Vec<String>>,
        segments: Option<Vec<Segment>>,
    ) -> (r: Result<(&T, BarrierSpec), CallError>)
        ensures
            if !is_sound_request(edges, segments) {
                r matches Err(e) && is_barrier_refusal(edges, segments, e@)
            } else {
                match self.command_refusal() {
                    Some(refusal) => r matches Err(e) && e@ == refusal,
                    None => r matches Ok((tx, spec)) && self.cmd_tx == Some(*tx) && spec == (
                    match segments {
                        Some(s) => BarrierSpec::Segments(s),
                        None => BarrierSpec::Edges(edges),
                    }),
                }
            },
            r is Ok <==> {
                &&& edges is None || segments is None
                &&& segments matches Some(s) ==> forall|i: int|
                    0 <= i < s@.len() ==> (#[trigger] s@[i]).1 == s@[i].3 || s@[i].2 == s@[i].4
                &&& self.cmd_tx is Some
            },
            edges is Some && segments is Some ==> (r matches Err(e) && e@ == ErrorView::TypeError(
                "pass either edges or segments, not both"@,
            )),
    {
        proof {
            if segments is Some {
                law_sound_requests_are_straight(edges, segments->0);
            }
        }
        if edges.is_some() && segments.is_some() {
            return Err(
                CallError::TypeError("pass either edges or segments, not both".to_string()),
            );
        }
        if let Some(s) = &segments {
            match validate_segments(s.as_slice()) {
                Ok(()) => {},
                Err(message) => {
                    return Err(CallError::ValueError(message));
                },
            }
        }
        match self.sender() {
            Err(e) => Err(e),
            Ok(tx) => {
                let spec: BarrierSpec = match segments {
                    Some(s) => BarrierSpec::Segments(s),
                    None => BarrierSpec::Edges(edges),
                };
                Ok((tx, spec))
            },
        }
    }

    /// Decides on a request to release captured input. The cursor is moved only where both
    /// coordinates are given.
    pub fn release<P>(&self, cursor_x: Option<P>, cursor_y: Option<P>) -> (r: Result<
        (&T, Option<(P, P)>),
        CallError,
    >)
        ensures
            match self.command_refusal() {
                Some(refusal) => r matches Err(e) && e@ == refusal,
                None => r matches Ok((tx, target)) && self.cmd_tx == Some(*tx) && target == (match (
                    cursor_x,
                    cursor_y,
                ) {
                    (Some(x), Some(y)) => Some((x, y)),
                    _ => None,
                }),
            },
            r is Ok <==> self.cmd_tx is Some,
            r matches Err(e) ==> e@ == ErrorView::RuntimeError("not set up"@),
    {
        match self.sender() {
            Err(e) => Err(e),
            Ok(tx) => Ok((tx, cursor_target(cursor_x, cursor_y))),
        }
    }

    /// Gives the session up, and hands out the way to tell its task, if there is one.
    pub fn close(&mut self) -> (r: Option<T>)
        ensures
            r == old(self).cmd_tx,
            *final(self) == old(self).after_close(),
            final(self).cmd_tx is None,
            final(self).pending == old(self).pending,
    {
        self.cmd_tx.take()
    }
}

// ---------------------------------------------------------------------------------------------
// Laws
// ---------------------------------------------------------------------------------------------
/// A handle stays in order through setups, whatever their outcome, and closes.
pub proof fn law_handle_stays_in_order<T, J>(
    portal: InputCapturePortal<T, J>,
    timeout: Option<Seconds>,
    pending_finished: bool,
    cmd_tx: T,
    task: J,
    succeeded: bool,
)
    requires
        portal.well_formed(),
    ensures
        portal.after_begin().well_formed(),
        portal.after_close().well_formed(),
        setup_refusal(
            timeout,
            portal.cmd_tx is Some,
            portal.is_winding_down(pending_finished),
        ) is None ==> portal.after_begin().after_setup(cmd_tx, task, succeeded).well_formed(),
{
}

/// A setup is possible exactly where the timeout can be used, no session is set up, and no
/// earlier setup is still winding down. So two sessions are never started from one handle.
pub proof fn law_one_session_at_a_time<T, J>(
    portal: InputCapturePortal<T, J>,
    timeout: Option<Seconds>,
    pending_finished: bool,
)
    ensures
        setup_refusal(
            timeout,
            portal.cmd_tx is Some,
            portal.is_winding_down(pending_finished),
        ) is None <==> timeout_refusal(timeout) is None && portal.cmd_tx is None
            && !portal.is_winding_down(pending_finished),
{
}

/// After a successful setup commands are possible and a second setup is not; after a close it
/// is the other way round.
pub proof fn law_close_makes_room<T, J>(
    portal: InputCapturePortal<T, J>,
    timeout: Option<Seconds>,
    pending_finished: bool,
    cmd_tx: T,
    task: J,
)
    requires
        timeout_refusal(timeout) is None,
    ensures
        ({
            let up = portal.after_begin().after_setup(cmd_tx, task, true);
            let down = up.after_close();
            &&& up.command_refusal() is None
            &&& setup_refusal(
                timeout,
                up.cmd_tx is Some,
                up.is_winding_down(pending_finished),
            ) == Some(ErrorView::RuntimeError("already set up"@))
            &&& down.command_refusal() == Some(ErrorView::RuntimeError("not set up"@))
            &&& setup_refusal(
                timeout,
                down.cmd_tx is Some,
                down.is_winding_down(pending_finished),
            ) is None
        }),
{
}

/// After a failed setup nothing can be commanded, and the next setup has to wait until the task
/// of the failed one is over; then it is possible again.
pub proof fn law_failed_setups_can_be_retried<T, J>(
    portal: InputCapturePortal<T, J>,
    timeout: Option<Seconds>,
    cmd_tx: T,
    task: J,
)
    requires
        timeout_refusal(timeout) is None,
        portal.cmd_tx is None,
    ensures
        ({
            let failed = portal.after_begin().after_setup(cmd_tx, task, false);
            &&& failed.command_refusal() == Some(ErrorView::RuntimeError("not set up"@))
            &&& setup_refusal(
                timeout,
                failed.cmd_tx is Some,
                failed.is_winding_down(false),
            ) == Some(ErrorView::RuntimeError(still_winding_down()))
            &&& setup_refusal(
                timeout,
                failed.cmd_tx is Some,
                failed.is_winding_down(true),
            ) is None
        }),
{
}

/// A timeout stands in the way of a setup exactly where it is not a positive number: NaN is
/// refused as such, zero and everything below it by name. `text` is what the timeout prints as.
pub proof fn law_timeouts_are_positive(t: Seconds)
    ensures
        timeout_refusal(None) is None,
        timeout_refusal(Some(t)) is None <==> 0 < t.bits <= 0x7ff0_0000_0000_0000,
        t.bits % 0x8000_0000_0000_0000 > 0x7ff0_0000_0000_0000 ==> timeout_refusal(Some(t)) == Some(
            ErrorView::ValueError("timeout must be a number of seconds or None, not NaN"@),
        ),
        t.bits == 0 || 0x8000_0000_0000_0000 <= t.bits <= 0xfff0_0000_0000_0000 ==> timeout_refusal(
            Some(t),
        ) == Some(
            ErrorView::ValueError(
                "timeout must be greater than 0 seconds (got "@ + t.text@
                    + "); pass None to wait indefinitely"@,
            ),
        ),
{
    law_float_bits_are_sorted(t.bits);
}

/// The deadline of a setup is the caller's timeout. There is none exactly where there is no
/// timeout or an infinite one. A finite timeout with the exponent bits `e` and the fraction bits
/// `f` gives its number of nanoseconds, at most half of one off, up to the longest wait.
pub proof fn law_timeouts_keep_their_length(timeout: Option<Seconds>, e: int, f: int)
    requires
        timeout matches Some(t) && t.bits == e * 0x10_0000_0000_0000 + f,
        0 <= e < 0x7ff,
        0 <= f < 0x10_0000_0000_0000,
        e > 0 || f > 0,
    ensures
        ({
            let s: int = if e == 0 {
                f
            } else {
                f + 0x10_0000_0000_0000
            };
            let h: int = if e == 0 {
                1074
            } else {
                1075 - e
            };
            &&& timeout_deadline(timeout) matches Some(n)
            &&& if h > 0 && s <= 18_446_744_073 * pow2(h as nat) {
                -pow2(h as nat) <= 2 * n * pow2(h as nat) - 2 * (s * 1_000_000_000) <= pow2(
                    h as nat,
                )
            } else {
                n == 18_446_744_073_000_000_000
            }
        }),
{
    let bits = timeout->0.bits;
    let s: int = if e == 0 {
        f
    } else {
        f + 0x10_0000_0000_0000
    };
    let h: int = if e == 0 {
        1074
    } else {
        1075 - e
    };
    law_float_bits_are_sorted(bits);
    law_deadlines_keep_their_length(e, f, s, h, bits);
}

/// Only "no timeout" and infinity mean forever.
pub proof fn law_only_unbounded_timeouts_wait_forever(timeout: Option<Seconds>)
    requires
        timeout_refusal(timeout) is None,
    ensures
        timeout_deadline(timeout) is None <==> (timeout is None || timeout->0.bits
            == 0x7ff0_0000_0000_0000),
{
    if let Some(t) = timeout {
        law_float_bits_are_sorted(t.bits);
    }
}

/// The first reason against a setup is the one that the caller hears: the timeout, then a session
/// that is set up, then a failed setup that is winding down.
pub proof fn law_refusals_come_in_order<T, J>(
    portal: InputCapturePortal<T, J>,
    timeout: Option<Seconds>,
    pending_finished: bool,
)
    ensures
        ({
            let refusal = setup_refusal(
                timeout,
                portal.cmd_tx is Some,
                portal.is_winding_down(pending_finished),
            );
            if timeout_refusal(timeout) is Some {
                refusal == timeout_refusal(timeout)
            } else if portal.cmd_tx is Some {
                refusal == Some(ErrorView::RuntimeError("already set up"@))
            } else if portal.pending is Some && !pending_finished {
                refusal == Some(
                    ErrorView::RuntimeError(
                        "a previous setup is still winding down (the portal has not answered it yet); retry once it has"@,
                    ),
                )
            } else {
                refusal is None
            }
        }),
{
}

/// Beginning a setup forgets the task of a failed one and nothing else; a success keeps the
/// sender, a failure the task; closing gives the sender up and nothing else.
pub proof fn law_handles_keep_what_matters<T, J>(
    portal: InputCapturePortal<T, J>,
    cmd_tx: T,
    task: J,
)
    ensures
        portal.after_begin().cmd_tx == portal.cmd_tx,
        portal.after_begin().pending is None,
        portal.after_setup(cmd_tx, task, true).cmd_tx == Some(cmd_tx),
        portal.after_setup(cmd_tx, task, true).pending is None,
        portal.after_setup(cmd_tx, task, false).cmd_tx == portal.cmd_tx,
        portal.after_setup(cmd_tx, task, false).pending == Some(task),
        portal.after_close().cmd_tx is None,
        portal.after_close().pending == portal.pending,
        portal.command_refusal() is None <==> portal.cmd_tx is Some,
        portal.cmd_tx is None ==> portal.command_refusal() == Some(
            ErrorView::RuntimeError("not set up"@),
        ),
        portal.well_formed() <==> !(portal.cmd_tx is Some && portal.pending is Some),
{
}

/// A request for segments is sound exactly where no edges are named beside them and every segment
/// is horizontal or vertical.
pub proof fn law_sound_requests_are_straight(edges: Option<Vec<String>>, segments: Vec<Segment>)
    ensures
        is_sound_request(edges, None),
        is_sound_request(edges, Some(segments)) <==> {
            &&& edges is None
            &&& forall|i: int|
                0 <= i < segments@.len() ==> (#[trigger] segments@[i]).1 == segments@[i].3
                    || segments@[i].2 == segments@[i].4
        },
{
    let given = Some(segments);
    if is_sound_request(edges, given) {
        assert forall|i: int| 0 <= i < segments@.len() implies (#[trigger] segments@[i]).1
            == segments@[i].3 || segments@[i].2 == segments@[i].4 by {
            assert(axis_aligned(given->0@[i]));
        }
    }
}

/// An unsound request is refused for one reason only: that it is described in two ways, or else
/// its first skewed segment, the one at index `i`.
pub proof fn law_refused_requests_name_the_first_offender(
    edges: Option<Vec<String>>,
    segments: Vec<Segment>,
    i: int,
    refusal: ErrorView,
)
    requires
        is_barrier_refusal(edges, Some(segments), refusal),
    ensures
        edges is Some ==> refusal == ErrorView::TypeError(
            "pass either edges or segments, not both"@,
        ),
        edges is None && 0 <= i < segments@.len() && segments@[i].1 != segments@[i].3
            && segments@[i].2 != segments@[i].4 && (forall|j: int|
            0 <= j < i ==> (#[trigger] segments@[j]).1 == segments@[j].3 || segments@[j].2
                == segments@[j].4) ==> refusal == ErrorView::ValueError(
            skew_message(i, segments@[i]),
        ),
{
    if edges is None && 0 <= i < segments@.len() && segments@[i].1 != segments@[i].3
        && segments@[i].2 != segments@[i].4 && (forall|j: int|
        0 <= j < i ==> (#[trigger] segments@[j]).1 == segments@[j].3 || segments@[j].2
            == segments@[j].4) {
        let given = Some(segments);
        let k = choose|k: int|
            {
                &&& given is Some
                &&& 0 <= k < given->0@.len()
                &&& !axis_aligned(#[trigger] given->0@[k])
                &&& forall|j: int| 0 <= j < k ==> axis_aligned(#[trigger] given->0@[j])
                &&& refusal == ErrorView::ValueError(skew_message(k, given->0@[k]))
            };
        assert(!axis_aligned(segments@[i]));
        if i < k {
            assert(axis_aligned(segments@[i]));
        }
        if k < i {
            assert(segments@[k].1 == segments@[k].3 || segments@[k].2 == segments@[k].4);
        }
        assert(i == k);
    }
}

} // verus!
