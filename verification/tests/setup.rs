use pyinputcapture::calls::{reply_result, CallError, Delivery};
use pyinputcapture::setup::{
    after_slice, deadline_from, next_slice, timed_out, Seconds, SetupReport, SetupResult,
    SliceOutcome, WaitVerdict, MAX_TIMEOUT_NANOS, SLICE_NANOS,
};
use std::time::{Duration, Instant};

fn deadline(timeout: Option<f64>) -> Result<Option<Duration>, CallError> {
    let given = timeout.map(|secs| Seconds { bits: secs.to_bits(), text: secs.to_string() });
    Ok(deadline_from(&given)?.map(Duration::from_nanos))
}

#[test]
fn timeout_none_and_infinity_both_mean_forever() {
    assert_eq!(deadline(None).unwrap(), None);
    assert_eq!(deadline(Some(f64::INFINITY)).unwrap(), None);
}

#[test]
fn timeout_infinity_does_not_panic() {
    assert!(deadline(Some(f64::INFINITY)).is_ok());
    assert!(deadline(Some(f64::MAX)).is_ok());
}

#[test]
fn timeout_zero_and_negative_are_rejected() {
    // Not "forever": a zero timeout is someone asking to fail fast.
    assert!(deadline(Some(0.0)).is_err());
    assert!(deadline(Some(-1.0)).is_err());
    assert!(deadline(Some(f64::NAN)).is_err());
}

#[test]
fn timeout_positive_survives_as_a_duration() {
    assert_eq!(deadline(Some(0.25)).unwrap(), Some(Duration::from_millis(250)));
}

#[test]
fn setup_timeout_is_an_error_not_a_hang() {
    // Nothing ever answers: the bounded wait must give up.
    let (_tx, mut rx) = tokio::sync::oneshot::channel::<Result<SetupResult, String>>();
    let rt = tokio::runtime::Builder::new_current_thread().enable_time().build().unwrap();

    let limit = Duration::from_millis(50);
    let nanos = deadline(Some(0.05)).unwrap().unwrap().as_nanos() as u64;
    assert_eq!(nanos, limit.as_nanos() as u64);
    let started = Instant::now();
    let error = loop {
        let elapsed = started.elapsed().as_nanos() as u64;
        let slice = match next_slice(Some(nanos), elapsed) {
            Some(slice) => Duration::from_nanos(slice),
            None => break timed_out(&limit.as_secs_f64().to_string()),
        };
        let outcome = rt.block_on(async { tokio::time::timeout(slice, &mut rx).await });
        let outcome = match outcome {
            Ok(Ok(result)) => SliceOutcome::Answered(result),
            Ok(Err(_)) => SliceOutcome::ChannelClosed,
            Err(_) => SliceOutcome::Expired,
        };
        assert_eq!(after_slice(outcome), WaitVerdict::CheckSignals);
    };
    assert_eq!(
        error,
        CallError::RuntimeError(
            "portal setup timed out after 0.05s (permission dialog unanswered?)".to_string()
        )
    );
    assert!(started.elapsed() >= limit);
}

#[test]
fn refused_timeouts_say_why() {
    assert_eq!(
        deadline(Some(f64::NAN)),
        Err(CallError::ValueError(
            "timeout must be a number of seconds or None, not NaN".to_string()
        ))
    );
    for (secs, text) in
        [(0.0, "0"), (-0.0, "-0"), (-1.5, "-1.5"), (f64::NEG_INFINITY, "-inf")]
    {
        assert_eq!(
            deadline(Some(secs)),
            Err(CallError::ValueError(format!(
                "timeout must be greater than 0 seconds (got {text}); \
                 pass None to wait indefinitely"
            )))
        );
    }
}

#[test]
fn the_default_timeout_is_honoured() {
    assert_eq!(deadline(Some(120.0)).unwrap(), Some(Duration::from_secs(120)));
    assert_eq!(deadline(Some(86_400.0)).unwrap(), Some(Duration::from_secs(86_400)));
}

#[test]
fn the_longest_timeout_is_a_cap() {
    let cap = Duration::from_nanos(MAX_TIMEOUT_NANOS);
    assert_eq!(deadline(Some(18_446_744_073.0)).unwrap(), Some(cap));
    assert_eq!(deadline(Some(18_446_744_073.5)).unwrap(), Some(cap));
    assert_eq!(deadline(Some(9_007_199_254_740_992.0)).unwrap(), Some(cap));
    assert_eq!(deadline(Some(f64::MAX)).unwrap(), Some(cap));
    assert_eq!(
        deadline(Some(18_446_744_072.0)).unwrap(),
        Some(Duration::from_secs(18_446_744_072))
    );
}

#[test]
fn deadlines_round_like_durations() {
    // Ties at half a nanosecond, tiny and subnormal values, and a spread of ordinary ones.
    let mut samples = vec![
        f64::from_bits(1),
        f64::MIN_POSITIVE,
        1e-20,
        4.9e-10,
        5e-10,
        0.999e-9,
        1.5e-9,
        2.5e-9,
        0.1,
        0.3,
        2.7,
        0.999_999_999_499,
        0.999_999_999_501,
        59.999_999_999_9,
        60.0,
        3e9,
    ];
    for k in 0..64 {
        // Multiples of 2^-10 nanoseconds times a power of two hit exact ties.
        samples.push((2 * k + 1) as f64 / 1024.0);
        samples.push((2 * k + 1) as f64 / 2f64.powi(30));
    }
    let mut bits: u64 = 0x9e37_79b9_7f4a_7c15;
    for _ in 0..2000 {
        bits = bits.wrapping_mul(6364136223846793005).wrapping_add(1442695040888963407);
        let x = (bits >> 11) as f64 / (1u64 << 53) as f64;
        samples.push(x);
        samples.push(x * 1e6);
        samples.push(x * 1e-8);
    }
    for secs in samples {
        if secs > 0.0 {
            assert_eq!(
                deadline(Some(secs)).unwrap(),
                Some(Duration::from_secs_f64(secs)),
                "{secs:e}"
            );
        }
    }
}

#[test]
fn slices_are_bounded_by_the_deadline() {
    assert_eq!(SLICE_NANOS, 100_000_000);
    assert_eq!(next_slice(None, 0), Some(SLICE_NANOS));
    assert_eq!(next_slice(None, u64::MAX), Some(SLICE_NANOS));
    assert_eq!(next_slice(Some(250_000_000), 0), Some(SLICE_NANOS));
    assert_eq!(next_slice(Some(250_000_000), 150_000_000), Some(SLICE_NANOS));
    assert_eq!(next_slice(Some(250_000_000), 200_000_000), Some(50_000_000));
    assert_eq!(next_slice(Some(250_000_000), 250_000_000), None);
    assert_eq!(next_slice(Some(250_000_000), 300_000_000), None);
    assert_eq!(next_slice(Some(0), 0), None);
}

#[test]
fn bounded_waits_take_few_slices() {
    let limit = 250_000_000u64;
    let mut elapsed = 0u64;
    let mut slices = 0u64;
    while let Some(slice) = next_slice(Some(limit), elapsed) {
        elapsed += slice;
        slices += 1;
    }
    assert_eq!(slices, 3);
    assert_eq!(elapsed, limit);
}

#[test]
fn slice_outcomes_end_or_continue_the_wait() {
    let result = SetupResult { zones: vec![], eis_raw_fd: 3, barrier_map: vec![] };
    assert_eq!(
        after_slice(SliceOutcome::Answered(Ok(SetupResult {
            zones: vec![],
            eis_raw_fd: 3,
            barrier_map: vec![]
        }))),
        WaitVerdict::Return(Ok(result))
    );
    assert_eq!(
        after_slice(SliceOutcome::Answered(Err("create_session: denied".to_string()))),
        WaitVerdict::Return(Err(CallError::RuntimeError("create_session: denied".to_string())))
    );
    assert_eq!(
        after_slice(SliceOutcome::ChannelClosed),
        WaitVerdict::Return(Err(CallError::RuntimeError(
            "portal setup channel closed".to_string()
        )))
    );
    assert_eq!(after_slice(SliceOutcome::Expired), WaitVerdict::CheckSignals);
}

#[test]
fn a_report_can_be_taken_once() {
    let mut report = SetupReport::new(5u8);
    assert_eq!(report.take_for_failure(&Ok(())), None);
    assert_eq!(report.take(), Ok(5));
    assert_eq!(report.take(), Err("setup already reported".to_string()));
    assert_eq!(report.take_for_failure(&Err("late".to_string())), None);

    let mut report = SetupReport::new(6u8);
    assert_eq!(
        report.take_for_failure(&Err("early".to_string())),
        Some((6, "early".to_string()))
    );
    assert!(report.slot.is_none());
}

#[test]
fn replies_become_results() {
    assert_eq!(
        reply_result::<u8>(Delivery::NotRunning),
        Err(CallError::RuntimeError("portal task not running".to_string()))
    );
    assert_eq!(
        reply_result::<u8>(Delivery::Dropped),
        Err(CallError::RuntimeError("portal task dropped reply".to_string()))
    );
    assert_eq!(
        reply_result::<u8>(Delivery::Answered(Err("no".to_string()))),
        Err(CallError::RuntimeError("no".to_string()))
    );
    assert_eq!(reply_result(Delivery::Answered(Ok(4u8))), Ok(4));
}
