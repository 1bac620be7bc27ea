use pyinputcapture::activation::reset_writes;
use pyinputcapture::calls::CallError;
use pyinputcapture::portal::{cursor_target, InputCapturePortal};
use pyinputcapture::session::{BarrierSpec, SessionState};
use pyinputcapture::setup::{Seconds, SetupResult};

type Portal = InputCapturePortal<&'static str, u8>;

fn runtime_error(text: &str) -> CallError {
    CallError::RuntimeError(text.to_string())
}

fn secs(value: f64) -> Option<Seconds> {
    Some(Seconds { bits: value.to_bits(), text: value.to_string() })
}

fn result() -> SetupResult {
    SetupResult { zones: vec![(1, 2, 3, 4)], eis_raw_fd: 5, barrier_map: vec![] }
}

const WINDING_DOWN: &str = "a previous setup is still winding down (the portal has not \
                            answered it yet); retry once it has";

#[test]
fn a_new_handle_is_not_set_up() {
    let portal = Portal::new();
    assert_eq!(portal.sender().unwrap_err(), runtime_error("not set up"));
    assert_eq!(portal.release(Some(1), Some(2)).unwrap_err(), runtime_error("not set up"));
    assert_eq!(portal.set_barriers(None, None).unwrap_err(), runtime_error("not set up"));
}

#[test]
fn a_setup_clears_the_last_session() {
    let mut portal = Portal::new();
    let mut state = SessionState {
        zones: vec![(1, 1, 1, 1)],
        barrier_map: vec![(1, "left".to_string())],
        zone_set: 9,
    };
    let plan = portal.begin_setup(&mut state, &secs(2.0), false).unwrap();
    assert_eq!(plan.deadline, Some(2_000_000_000));
    assert_eq!(plan.writes, reset_writes());
    assert!(state.zones.is_empty());
    assert!(state.barrier_map.is_empty());
    assert_eq!(state.zone_set, 0);
    assert_eq!(portal.begin_setup(&mut state, &None, false).unwrap().deadline, None);
}

#[test]
fn a_refused_setup_leaves_everything_alone() {
    let mut portal = Portal::new();
    let mut state =
        SessionState { zones: vec![(1, 1, 1, 1)], barrier_map: vec![], zone_set: 9 };
    let refused = portal.begin_setup(&mut state, &secs(0.0), false).unwrap_err();
    assert!(matches!(refused, CallError::ValueError(_)));
    assert_eq!(state.zone_set, 9);
    assert_eq!(state.zones, vec![(1, 1, 1, 1)]);
}

#[test]
fn a_session_is_set_up_once_until_closed() {
    let mut portal = Portal::new();
    let mut state = SessionState::default();
    portal.begin_setup(&mut state, &None, false).unwrap();
    assert_eq!(portal.finish_setup::<CallError>("tx", 1, Ok(result())), Ok(result()));
    assert_eq!(portal.sender().unwrap(), &"tx");
    assert_eq!(
        portal.begin_setup(&mut state, &None, true).unwrap_err(),
        runtime_error("already set up")
    );
    // An unusable timeout is what the caller hears about first.
    assert!(matches!(
        portal.begin_setup(&mut state, &secs(f64::NAN), true).unwrap_err(),
        CallError::ValueError(_)
    ));
    assert_eq!(portal.close(), Some("tx"));
    assert_eq!(portal.close(), None);
    assert_eq!(portal.sender().unwrap_err(), runtime_error("not set up"));
    assert!(portal.begin_setup(&mut state, &None, false).is_ok());
}

#[test]
fn a_failed_setup_must_wind_down_first() {
    let mut portal = Portal::new();
    let mut state = SessionState::default();
    portal.begin_setup(&mut state, &None, false).unwrap();
    let failure = portal.finish_setup("tx", 7, Err(runtime_error("timed out")));
    assert_eq!(failure, Err(runtime_error("timed out")));
    assert_eq!(portal.sender().unwrap_err(), runtime_error("not set up"));
    assert_eq!(
        portal.begin_setup(&mut state, &None, false).unwrap_err(),
        runtime_error(WINDING_DOWN)
    );
    assert_eq!(portal.pending, Some(7));
    assert!(portal.begin_setup(&mut state, &None, true).is_ok());
    assert_eq!(portal.pending, None);
}

#[test]
fn barrier_requests_are_checked_before_they_are_sent() {
    let mut portal = Portal::new();
    let skewed = vec![("d".to_string(), 0, 0, 5, 6)];
    assert_eq!(
        portal.set_barriers(Some(vec![]), Some(vec![])).unwrap_err(),
        CallError::TypeError("pass either edges or segments, not both".to_string())
    );
    assert_eq!(
        portal.set_barriers(None, Some(skewed.clone())).unwrap_err(),
        CallError::ValueError(
            "segment 0 (\"d\") is not axis-aligned: (0, 0) -> (5, 6); \
             barriers must be horizontal or vertical"
                .to_string()
        )
    );
    portal.cmd_tx = Some("tx");
    assert!(portal.set_barriers(None, Some(skewed)).is_err());
    assert_eq!(portal.set_barriers(None, None).unwrap(), (&"tx", BarrierSpec::Edges(None)));
    assert_eq!(
        portal.set_barriers(Some(vec!["top".to_string()]), None).unwrap(),
        (&"tx", BarrierSpec::Edges(Some(vec!["top".to_string()])))
    );
    let spans = vec![("left".to_string(), 0, 0, 0, 9)];
    assert_eq!(
        portal.set_barriers(None, Some(spans.clone())).unwrap(),
        (&"tx", BarrierSpec::Segments(spans))
    );
}

#[test]
fn the_cursor_moves_only_with_both_coordinates() {
    assert_eq!(cursor_target(Some(960.0), Some(540.0)), Some((960.0, 540.0)));
    assert_eq!(cursor_target(Some(1.0), None), None);
    assert_eq!(cursor_target(None, Some(1.0)), None);
    assert_eq!(cursor_target::<f64>(None, None), None);
    let mut portal = Portal::new();
    portal.cmd_tx = Some("tx");
    assert_eq!(portal.release(Some(1.5), Some(2.5)).unwrap(), (&"tx", Some((1.5, 2.5))));
    assert_eq!(portal.release(Some(1.5), None).unwrap(), (&"tx", None));
}
