//! Setting a session up: how long to wait for it, and who hears about its outcome.

use crate::barriers::{map_view, BarrierMap, Zone};
use crate::calls::{CallError, ErrorView};
use vstd::arithmetic::power2::*;
use vstd::prelude::*;
use vstd::string::*;

verus! {

// ---------------------------------------------------------------------------------------------
// Deadlines
// ---------------------------------------------------------------------------------------------
/// A number of seconds as the caller gave it: the bits of a 64-bit float, and the text that it
/// prints as.
#[derive(Debug)]
pub struct Seconds {
    pub bits: u64,
    pub text: String,
}

/// Longest bounded wait, in seconds: as many as a 64-bit count of nanoseconds holds, some 584
/// years. Past this a timeout is indistinguishable from "forever".
pub const MAX_TIMEOUT_SECS: u64 = 18_446_744_073;

/// Longest bounded wait, in nanoseconds.
pub const MAX_TIMEOUT_NANOS: u64 = 18_446_744_073_000_000_000;

/// The sign bit of a float.
pub open spec fn is_negative(bits: u64) -> bool {
    bits >= 0x8000_0000_0000_0000
}

/// The eleven exponent bits of a float.
pub open spec fn exponent(bits: u64) -> int {
    (bits as int / 0x10_0000_0000_0000) % 0x800
}

/// The 52 fraction bits of a float.
pub open spec fn fraction(bits: u64) -> int {
    bits as int % 0x10_0000_0000_0000
}

pub open spec fn is_nan(bits: u64) -> bool {
    exponent(bits) == 0x7ff && fraction(bits) != 0
}

pub open spec fn is_infinite(bits: u64) -> bool {
    exponent(bits) == 0x7ff && fraction(bits) == 0
}

/// Whether a float other than NaN is zero or less. Both zeros count.
pub open spec fn is_not_positive(bits: u64) -> bool {
    is_negative(bits) || bits == 0
}

/// The integer by which a finite float counts its smallest steps.
pub open spec fn significand(bits: u64) -> nat {
    if exponent(bits) == 0 {
        fraction(bits) as nat
    } else {
        (fraction(bits) + 0x10_0000_0000_0000) as nat
    }
}

/// How many times the significand is halved to give the value of a finite float. Negative where
/// it is doubled instead.
pub open spec fn halvings(bits: u64) -> int {
    if exponent(bits) == 0 {
        1074
    } else {
        1075 - exponent(bits)
    }
}

/// Whether the value of a positive finite float is over the longest bounded wait.
pub open spec fn over_max(bits: u64) -> bool {
    if halvings(bits) >= 0 {
        significand(bits) > MAX_TIMEOUT_SECS * pow2(halvings(bits) as nat)
    } else {
        significand(bits) * pow2((-halvings(bits)) as nat) > MAX_TIMEOUT_SECS
    }
}

/// `num / den` rounded to the nearest integer, ties to the even one.
pub open spec fn rounded(num: nat, den: nat) -> nat {
    let q = num / den;
    let r = num % den;
    if 2 * r < den || (2 * r == den && q % 2 == 0) {
        q
    } else {
        q + 1
    }
}

/// The nanoseconds of a positive finite number of seconds, capped at the longest bounded wait.
pub open spec fn deadline_nanos(bits: u64) -> nat {
    if over_max(bits) {
        MAX_TIMEOUT_NANOS as nat
    } else {
        rounded(significand(bits) * 1_000_000_000, pow2(halvings(bits) as nat))
    }
}

/// Why a timeout that is zero or less is refused.
pub open spec fn not_positive_message(text: Seq<char>) -> Seq<char> {
    "timeout must be greater than 0 seconds (got "@ + text
        + "); pass None to wait indefinitely"@
}

proof fn lemma_pow2_grows(a: nat, b: nat)
    requires
        a <= b,
    ensures
        0 < pow2(a) <= pow2(b),
{
    lemma_pow2_pos(a);
    if a < b {
        lemma_pow2_strictly_increases(a, b);
    }
}

/// Small exponents divide the significand away: the result is less than half a nanosecond.
proof fn lemma_tiny(s: nat, h: nat)
    requires
        s < 0x20_0000_0000_0000,
        h >= 84,
    ensures
        s <= MAX_TIMEOUT_SECS * pow2(h),
        rounded(s * 1_000_000_000, pow2(h)) == 0,
{
    let den = pow2(h);
    lemma_pow2_grows(84, h);
    assert(pow2(84) == 0x10_0000_0000_0000_0000_0000) by {
        lemma2_to64();
        lemma_pow2_adds(64, 20);
    }
    assert(2 * (s * 1_000_000_000) < den);
    assert((s * 1_000_000_000) / den == 0 && (s * 1_000_000_000) % den == s * 1_000_000_000) by {
        vstd::arithmetic::div_mod::lemma_basic_div(
            (s * 1_000_000_000) as int,
            den as int,
        );
        vstd::arithmetic::div_mod::lemma_small_mod(s * 1_000_000_000, den);
    }
    assert(s <= MAX_TIMEOUT_SECS * den) by (nonlinear_arith)
        requires
            s <= den,
    ;
}

/// What is not over the longest wait stays within it after rounding.
proof fn lemma_rounded_fits(s: nat, den: nat)
    requires
        den > 0,
        s <= MAX_TIMEOUT_SECS * den,
    ensures
        rounded(s * 1_000_000_000, den) <= MAX_TIMEOUT_NANOS,
{
    let num = s * 1_000_000_000;
    let q = num / den;
    let r = num % den;
    vstd::arithmetic::div_mod::lemma_fundamental_div_mod(num as int, den as int);
    assert(num <= MAX_TIMEOUT_NANOS * den) by (nonlinear_arith)
        requires
            num == s * 1_000_000_000,
            s <= MAX_TIMEOUT_SECS * den,
            MAX_TIMEOUT_NANOS == MAX_TIMEOUT_SECS * 1_000_000_000,
    ;
    assert(q <= MAX_TIMEOUT_NANOS && (q == MAX_TIMEOUT_NANOS ==> r == 0)) by (nonlinear_arith)
        requires
            num <= MAX_TIMEOUT_NANOS * den,
            num == den * q + r,
            r >= 0,
            den > 0,
    ;
}

/// The nanoseconds of a positive finite number of seconds.
fn nanos_of(bits: u64) -> (r: u64)
    requires
        !is_not_positive(bits),
        exponent(bits) != 0x7ff,
    ensures
        r == deadline_nanos(bits),
{
    let exp: u64 = (bits / 0x10_0000_0000_0000) % 0x800;
    let frac: u64 = bits % 0x10_0000_0000_0000;
    let sig: u64 = if exp == 0 {
        frac
    } else {
        frac + 0x10_0000_0000_0000
    };
    assert(sig == significand(bits));
    if exp >= 1075 {
        proof {
            let k = (exp - 1075) as nat;
            lemma_pow2_grows(0, k);
            lemma2_to64();
            assert(sig * pow2(k) >= sig) by (nonlinear_arith)
                requires
                    pow2(k) >= 1,
                    sig >= 0,
            ;
            if k == 0 {
                assert(MAX_TIMEOUT_SECS * pow2(0) == MAX_TIMEOUT_SECS);
            }
        }
        return MAX_TIMEOUT_NANOS;
    }
    let h: u64 = if exp == 0 {
        1074
    } else {
        1075 - exp
    };
    assert(h == halvings(bits));
    if h >= 84 {
        proof {
            lemma_tiny(sig as nat, h as nat);
        }
        return 0;
    }
    let mut den: u128 = 1;
    let mut i: u64 = 0;
    proof {
        lemma2_to64();
    }
    while i < h
        invariant
            i <= h < 84,
            den == pow2(i as nat),
            den <= 0x8_0000_0000_0000_0000_0000,
        decreases h - i,
    {
        proof {
            lemma_pow2_unfold((i + 1) as nat);
            lemma_pow2_grows((i + 1) as nat, 83);
            lemma2_to64();
            lemma_pow2_adds(64, 19);
        }
        den = den * 2;
        i = i + 1;
    }
    proof {
        lemma_pow2_pos(h as nat);
    }
    assert(MAX_TIMEOUT_SECS * den <= 18_446_744_073 * 0x8_0000_0000_0000_0000_0000) by (
    nonlinear_arith)
        requires
            MAX_TIMEOUT_SECS == 18_446_744_073,
            den <= 0x8_0000_0000_0000_0000_0000,
    ;
    if sig as u128 > MAX_TIMEOUT_SECS as u128 * den {
        return MAX_TIMEOUT_NANOS;
    }
    let num: u128 = sig as u128 * 1_000_000_000;
    let q: u128 = num / den;
    let r: u128 = num % den;
    proof {
        lemma_rounded_fits(sig as nat, den as nat);
    }
    if 2 * r < den || (2 * r == den && q % 2 == 0) {
        q as u64
    } else {
        (q + 1) as u64
    }
}

/// Turns a timeout into a deadline, in nanoseconds.
///
/// `None`, and infinity, which spells the same intent, mean to wait indefinitely. Zero and
/// negative values are refused: whoever gives them asks to fail fast, and an unbounded wait
/// would be the opposite.
pub fn deadline_from(timeout: &Option<Seconds>) -> (r: Result<Option<u64>, CallError>)
    ensures
        match *timeout {
            None => r == Ok::<Option<u64>, CallError>(None),
            Some(t) => if is_nan(t.bits) {
                r matches Err(e) && e@ == ErrorView::ValueError(
                    "timeout must be a number of seconds or None, not NaN"@,
                )
            } else if is_not_positive(t.bits) {
                r matches Err(e) && e@ == ErrorView::ValueError(not_positive_message(t.text@))
            } else if is_infinite(t.bits) {
                r == Ok::<Option<u64>, CallError>(None)
            } else {
                r matches Ok(Some(nanos)) && nanos == deadline_nanos(t.bits)
            },
        },
{
    match timeout {
        None => Ok(None),
        Some(t) => {
            let exp: u64 = (t.bits / 0x10_0000_0000_0000) % 0x800;
            let frac: u64 = t.bits % 0x10_0000_0000_0000;
            if exp == 0x7ff && frac != 0 {
                Err(
                    CallError::ValueError(
                        "timeout must be a number of seconds or None, not NaN".to_string(),
                    ),
                )
            } else if t.bits >= 0x8000_0000_0000_0000 || t.bits == 0 {
                let mut message: String =
                    "timeout must be greater than 0 seconds (got ".to_string();
                message.append(t.text.as_str());
                message.append("); pass None to wait indefinitely");
                Err(CallError::ValueError(message))
            } else if exp == 0x7ff {
                Ok(None)
            } else {
                Ok(Some(nanos_of(t.bits)))
            }
        },
    }
}

// ---------------------------------------------------------------------------------------------
// Waiting
// ---------------------------------------------------------------------------------------------
/// How long one wait lasts, in nanoseconds, before the caller's signal handlers get a turn.
pub const SLICE_NANOS: u64 = 100_000_000;

/// The next stretch to wait, after `elapsed` nanoseconds: a slice, or what is left of the
/// deadline if that is shorter. `None` once the deadline has passed.
pub open spec fn wait_slice(deadline: Option<u64>, elapsed: u64) -> Option<u64> {
    match deadline {
        None => Some(SLICE_NANOS),
        Some(limit) => if elapsed >= limit {
            None
        } else if limit - elapsed < SLICE_NANOS {
            Some((limit - elapsed) as u64)
        } else {
            Some(SLICE_NANOS)
        },
    }
}

/// The next stretch to wait, or `None` once the deadline has passed.
pub fn next_slice(deadline: Option<u64>, elapsed: u64) -> (r: Option<u64>)
    ensures
        r == wait_slice(deadline, elapsed),
{
    match deadline {
        None => Some(SLICE_NANOS),
        Some(limit) => {
            if elapsed >= limit {
                None
            } else {
                let left: u64 = limit - elapsed;
                if left < SLICE_NANOS {
                    Some(left)
                } else {
                    Some(SLICE_NANOS)
                }
            }
        },
    }
}

/// Why a setup whose deadline has passed fails. The limit comes as the text of its seconds.
pub fn timed_out(limit: &String) -> (e: CallError)
    ensures
        e@ == ErrorView::RuntimeError(
            "portal setup timed out after "@ + limit@ + "s (permission dialog unanswered?)"@,
        ),
{
    let mut message: String = "portal setup timed out after ".to_string();
    message.append(limit.as_str());
    message.append("s (permission dialog unanswered?)");
    CallError::RuntimeError(message)
}

/// What a successful setup hands to the caller.
#[derive(Debug, PartialEq, Eq)]
pub struct SetupResult {
    pub zones: Vec<Zone>,
    pub eis_raw_fd: i32,
    pub barrier_map: BarrierMap,
}

/// The mathematical content of a `SetupResult`.
pub ghost struct SetupView {
    pub zones: Seq<Zone>,
    pub eis_raw_fd: i32,
    pub barrier_map: Seq<(u32, Seq<char>)>,
}

impl View for SetupResult {
    type V = SetupView;

    open spec fn view(&self) -> SetupView {
        SetupView {
            zones: self.zones@,
            eis_raw_fd: self.eis_raw_fd,
            barrier_map: map_view(self.barrier_map@),
        }
    }
}

/// How one stretch of waiting ended.
#[derive(Debug)]
pub enum SliceOutcome {
    /// The portal task answered.
    Answered(Result<SetupResult, String>),
    /// The portal task went away without an answer.
    ChannelClosed,
    /// Nothing happened.
    Expired,
}

/// What to do after one stretch of waiting.
#[derive(Debug, PartialEq, Eq)]
pub enum WaitVerdict {
    /// The wait is over.
    Return(Result<SetupResult, CallError>),
    /// Let pending signals be raised, then wait on.
    CheckSignals,
}

/// Decides what to do after one stretch of waiting.
pub fn after_slice(outcome: SliceOutcome) -> (r: WaitVerdict)
    ensures
        match outcome {
            SliceOutcome::Answered(Ok(result)) => r == WaitVerdict::Return(Ok(result)),
            SliceOutcome::Answered(Err(reason)) => r matches WaitVerdict::Return(Err(e)) && e@
                == ErrorView::RuntimeError(reason@),
            SliceOutcome::ChannelClosed => r matches WaitVerdict::Return(Err(e)) && e@
                == ErrorView::RuntimeError("portal setup channel closed"@),
            SliceOutcome::Expired => r is CheckSignals,
        },
{
    match outcome {
        SliceOutcome::Answered(Ok(result)) => WaitVerdict::Return(Ok(result)),
        SliceOutcome::Answered(Err(reason)) => WaitVerdict::Return(
            Err(CallError::RuntimeError(reason)),
        ),
        SliceOutcome::ChannelClosed => WaitVerdict::Return(
            Err(CallError::RuntimeError("portal setup channel closed".to_string())),
        ),
        SliceOutcome::Expired => WaitVerdict::CheckSignals,
    }
}

// ---------------------------------------------------------------------------------------------
// Reporting
// ---------------------------------------------------------------------------------------------
/// The one chance to tell whoever waits for a setup how it went. `S` is the way to tell.
#[derive(Debug)]
pub struct SetupReport<S> {
    pub slot: Option<S>,
}

impl<S> SetupReport<S> {
    /// A report that is still owed.
    pub fn new(sender: S) -> (r: Self)
        ensures
            r.slot == Some(sender),
    {
        SetupReport { slot: Some(sender) }
    }

    /// Takes the sender, to report success.
    pub fn take(&mut self) -> (r: Result<S, String>)
        ensures
            final(self).slot is None,
            match old(self).slot {
                Some(sender) => r == Ok::<S, String>(sender),
                None => r matches Err(e) && e@ == "setup already reported"@,
            },
    {
        match self.slot.take() {
            Some(sender) => Ok(sender),
            None => Err("setup already reported".to_string()),
        }
    }

    /// Takes the sender to report a failure, if there is a failure and nothing was reported yet.
    pub fn take_for_failure(&mut self, result: &Result<(), String>) -> (r: Option<(S, String)>)
        ensures
            match (*result, old(self).slot) {
                (Err(reason), Some(sender)) => final(self).slot is None && r == Some(
                    (sender, reason),
                ),
                _ => final(self).slot == old(self).slot && r is None,
            },
    {
        match result {
            Ok(()) => None,
            Err(reason) => match self.slot.take() {
                Some(sender) => Some((sender, reason.clone())),
                None => None,
            },
        }
    }
}

// ---------------------------------------------------------------------------------------------
// Laws
// ---------------------------------------------------------------------------------------------
/// A positive finite timeout up to the longest wait keeps its length: the deadline is less than
/// or equal to half a nanosecond away from it.
pub proof fn law_deadline_is_exact(bits: u64)
    requires
        !is_not_positive(bits),
        exponent(bits) != 0x7ff,
        !over_max(bits),
    ensures
        halvings(bits) > 0,
        2 * deadline_nanos(bits) * pow2(halvings(bits) as nat) <= 2 * (significand(bits)
            * 1_000_000_000) + pow2(halvings(bits) as nat),
        2 * (significand(bits) * 1_000_000_000) <= 2 * deadline_nanos(bits) * pow2(
            halvings(bits) as nat,
        ) + pow2(halvings(bits) as nat),
{
    let h = halvings(bits);
    let s = significand(bits);
    if h <= 0 {
        lemma_pow2_grows(0, (-h) as nat);
        lemma2_to64();
        assert(s * pow2((-h) as nat) >= s) by (nonlinear_arith)
            requires
                pow2((-h) as nat) >= 1,
                s >= 0,
        ;
        assert(MAX_TIMEOUT_SECS * pow2(0) == MAX_TIMEOUT_SECS);
    }
    let den = pow2(h as nat);
    lemma_pow2_pos(h as nat);
    let num = s * 1_000_000_000;
    let q = num / den;
    let r = num % den;
    vstd::arithmetic::div_mod::lemma_fundamental_div_mod(num as int, den as int);
    vstd::arithmetic::div_mod::lemma_mod_bound(num as int, den as int);
    let n = deadline_nanos(bits);
    if n == q {
        assert(2 * n * den == 2 * (q * den)) by (nonlinear_arith)
            requires
                n == q,
        ;
    } else {
        assert(2 * n * den == 2 * (q * den) + 2 * den) by (nonlinear_arith)
            requires
                n == q + 1,
        ;
    }
    assert(den * q == q * den) by (nonlinear_arith);
}

/// No deadline is longer than the longest bounded wait.
pub proof fn law_deadline_is_bounded(bits: u64)
    requires
        !is_not_positive(bits),
        exponent(bits) != 0x7ff,
    ensures
        deadline_nanos(bits) <= MAX_TIMEOUT_NANOS,
{
    if !over_max(bits) {
        law_deadline_is_exact(bits);
        lemma_pow2_pos(halvings(bits) as nat);
        lemma_rounded_fits(significand(bits), pow2(halvings(bits) as nat));
    }
}

/// A wait never runs past its deadline and never lasts longer than a slice, and it is never
/// empty.
pub proof fn law_slices_stay_within_the_deadline(deadline: Option<u64>, elapsed: u64)
    ensures
        wait_slice(deadline, elapsed) matches Some(slice) ==> {
            &&& 0 < slice <= SLICE_NANOS
            &&& deadline matches Some(limit) ==> elapsed + slice <= limit
        },
        deadline is None ==> wait_slice(deadline, elapsed) is Some,
        deadline matches Some(limit) ==> (wait_slice(deadline, elapsed) is None <==> elapsed
            >= limit),
{
}

/// A bounded wait ends. Where every stretch of waiting takes at least as long as it was meant
/// to, there are at most as many of them as slices fit into the deadline, and one more.
pub proof fn law_bounded_waits_end(limit: u64, at: Seq<u64>)
    requires
        at.len() > 0,
        forall|i: int|
            0 <= i < at.len() ==> wait_slice(Some(limit), #[trigger] at[i]) is Some,
        forall|i: int, j: int|
            #![trigger at[i], at[j]]
            0 <= i && j == i + 1 && j < at.len() ==> at[j] >= at[i] + wait_slice(
                Some(limit),
                at[i],
            )->0,
    ensures
        at.len() <= limit / SLICE_NANOS + 1,
{
    lemma_slices_add_up(limit, at, at.len() - 1);
    let n = at.len() - 1;
    assert(wait_slice(Some(limit), at[n]) is Some);
    assert(n * SLICE_NANOS < limit);
    assert(n <= limit / SLICE_NANOS) by {
        vstd::arithmetic::div_mod::lemma_div_is_ordered(
            n * SLICE_NANOS,
            limit as int,
            SLICE_NANOS as int,
        );
        vstd::arithmetic::div_mod::lemma_div_by_multiple(n as int, SLICE_NANOS as int);
    }
}

proof fn lemma_slices_add_up(limit: u64, at: Seq<u64>, k: int)
    requires
        0 <= k < at.len(),
        forall|i: int|
            0 <= i < at.len() ==> wait_slice(Some(limit), #[trigger] at[i]) is Some,
        forall|i: int, j: int|
            #![trigger at[i], at[j]]
            0 <= i && j == i + 1 && j < at.len() ==> at[j] >= at[i] + wait_slice(
                Some(limit),
                at[i],
            )->0,
    ensures
        at[k] >= k * SLICE_NANOS,
    decreases k,
{
    if k > 0 {
        lemma_slices_add_up(limit, at, k - 1);
        assert(wait_slice(Some(limit), at[k - 1]) is Some);
        assert(wait_slice(Some(limit), at[k]) is Some);
        assert(at[k] >= at[k - 1] + wait_slice(Some(limit), at[k - 1])->0);
        assert(k * SLICE_NANOS == (k - 1) * SLICE_NANOS + SLICE_NANOS) by (nonlinear_arith);
    }
}

/// How a float is read: its sign, the eleven bits `e` of its exponent and the 52 bits `f` of its
/// fraction, put together, give its bits. All exponent bits set stand for infinity, or for NaN
/// where the fraction is not zero.
pub proof fn law_floats_are_read(negative: bool, e: int, f: int, bits: u64)
    requires
        0 <= e < 0x800,
        0 <= f < 0x10_0000_0000_0000,
        bits == e * 0x10_0000_0000_0000 + f + (if negative {
            0x8000_0000_0000_0000int
        } else {
            0
        }),
    ensures
        is_negative(bits) <==> negative,
        exponent(bits) == e,
        fraction(bits) == f,
        is_nan(bits) <==> e == 0x7ff && f > 0,
        is_infinite(bits) <==> e == 0x7ff && f == 0,
        is_not_positive(bits) <==> negative || (e == 0 && f == 0),
        e == 0 ==> significand(bits) == f && halvings(bits) == 1074,
        e > 0 ==> significand(bits) == 0x10_0000_0000_0000 + f && halvings(bits) == 1075 - e,
{
    assert(bits as int / 0x10_0000_0000_0000 == e + (if negative {
        0x800int
    } else {
        0
    }));
}

/// Seen as whole numbers, the bits of floats are sorted: first zero, then the positive finite
/// ones, then infinity, then NaN, and the same again with a sign.
pub proof fn law_float_bits_are_sorted(bits: u64)
    ensures
        is_nan(bits) <==> bits % 0x8000_0000_0000_0000 > 0x7ff0_0000_0000_0000,
        is_infinite(bits) <==> bits % 0x8000_0000_0000_0000 == 0x7ff0_0000_0000_0000,
        is_not_positive(bits) <==> bits == 0 || bits >= 0x8000_0000_0000_0000,
{
}

/// A positive finite timeout, `s` seconds halved `h` times, keeps its length. Up to the longest
/// wait the deadline is its number of nanoseconds, at most half of one off, and even where two
/// are equally near. Beyond it the deadline is the longest wait.
pub proof fn law_deadlines_keep_their_length(e: int, f: int, s: int, h: int, bits: u64)
    requires
        0 <= e < 0x7ff,
        0 <= f < 0x10_0000_0000_0000,
        e > 0 || f > 0,
        bits == e * 0x10_0000_0000_0000 + f,
        e == 0 ==> s == f && h == 1074,
        e > 0 ==> s == 0x10_0000_0000_0000 + f && h == 1075 - e,
    ensures
        deadline_nanos(bits) <= 18_446_744_073_000_000_000,
        h > 0 && s <= 18_446_744_073 * pow2(h as nat) ==> {
            let off = 2 * deadline_nanos(bits) * pow2(h as nat) - 2 * (s * 1_000_000_000);
            &&& -pow2(h as nat) <= off <= pow2(h as nat)
            &&& (off == pow2(h as nat) || off == -pow2(h as nat)) ==> deadline_nanos(bits) % 2 == 0
        },
        !(h > 0 && s <= 18_446_744_073 * pow2(h as nat)) ==> deadline_nanos(bits)
            == 18_446_744_073_000_000_000,
{
    law_floats_are_read(false, e, f, bits);
    law_deadline_is_bounded(bits);
    if over_max(bits) {
        assert(!(h > 0 && s <= 18_446_744_073 * pow2(h as nat)));
    } else {
        law_deadline_is_exact(bits);
        let den = pow2(h as nat);
        lemma_pow2_pos(h as nat);
        let num = (s * 1_000_000_000) as nat;
        let q = num / den;
        let r = num % den;
        vstd::arithmetic::div_mod::lemma_fundamental_div_mod(num as int, den as int);
        let n = deadline_nanos(bits);
        assert(n == rounded(num, den));
        if n == q {
            assert(2 * n * den - 2 * num == -2 * r) by (nonlinear_arith)
                requires
                    n == q,
                    num == den * q + r,
            ;
        } else {
            assert(2 * n * den - 2 * num == 2 * den - 2 * r) by (nonlinear_arith)
                requires
                    n == q + 1,
                    num == den * q + r,
            ;
        }
    }
}

/// A stretch of waiting is a tenth of a second, or exactly what is left of the deadline where
/// that is less.
pub proof fn law_slices_are_full_or_last(deadline: Option<u64>, elapsed: u64)
    ensures
        deadline is None ==> wait_slice(deadline, elapsed) == Some(100_000_000u64),
        deadline matches Some(limit) ==> {
            &&& elapsed >= limit ==> wait_slice(deadline, elapsed) is None
            &&& elapsed + 100_000_000 <= limit ==> wait_slice(deadline, elapsed) == Some(
                100_000_000u64,
            )
            &&& elapsed < limit < elapsed + 100_000_000 ==> wait_slice(deadline, elapsed) == Some(
                (limit - elapsed) as u64,
            )
        },
{
}

/// The refusal of a timeout quotes it as it was given.
pub proof fn law_refused_timeouts_are_quoted(text: Seq<char>)
    ensures
        not_positive_message(text) == "timeout must be greater than 0 seconds (got "@ + text
            + "); pass None to wait indefinitely"@,
{
}

/// The result of a setup is handed on as it is, field by field.
pub proof fn law_results_are_read_verbatim(result: SetupResult)
    ensures
        result@.zones == result.zones@,
        result@.eis_raw_fd == result.eis_raw_fd,
        result@.barrier_map.len() == result.barrier_map@.len(),
        forall|i: int|
            0 <= i < result.barrier_map@.len() ==> {
                &&& (#[trigger] result@.barrier_map[i]).0 == result.barrier_map@[i].0
                &&& result@.barrier_map[i].1 == result.barrier_map@[i].1@
            },
{
}

} // verus!
