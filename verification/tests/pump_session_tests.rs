use telemetry_session::fault::Fault;
use telemetry_session::pump::{pump_run, pump_step, PumpDirective, PumpEvent};
use telemetry_session::session::{session_outcome, RaceWinner};

#[test]
fn every_received_event_is_logged_unchanged() {
    let payload = b"[Queue] broker event".to_vec();
    let directive = pump_step(PumpEvent::Received { payload: payload.clone() });
    match directive {
        PumpDirective::Log { payload: logged } => assert_eq!(logged, payload),
        PumpDirective::Stop => panic!("a received event must not stop the pump"),
    }
}

#[test]
fn a_close_stops_the_pump() {
    assert!(matches!(pump_step(PumpEvent::Closed), PumpDirective::Stop));
}

#[test]
fn the_pump_drains_until_the_first_close_and_ends_without_error() {
    let events = vec![
        PumpEvent::Received { payload: b"one".to_vec() },
        PumpEvent::Received { payload: b"two".to_vec() },
        PumpEvent::Closed,
        PumpEvent::Received { payload: b"after the close".to_vec() },
    ];
    let (logged, outcome) = pump_run(events);
    assert_eq!(logged, vec![b"one".to_vec(), b"two".to_vec()]);
    assert_eq!(outcome, Some(Ok(())));
}

#[test]
fn an_open_stream_leaves_the_pump_running() {
    let events = vec![
        PumpEvent::Received { payload: b"one".to_vec() },
        PumpEvent::Received { payload: b"two".to_vec() },
    ];
    let (logged, outcome) = pump_run(events);
    assert_eq!(logged, vec![b"one".to_vec(), b"two".to_vec()]);
    assert_eq!(outcome, None);
}

#[test]
fn an_immediate_close_logs_nothing() {
    let (logged, outcome) = pump_run(vec![PumpEvent::Closed]);
    assert!(logged.is_empty());
    assert_eq!(outcome, Some(Ok(())));
}

#[test]
fn the_session_outcome_is_the_pump_result_when_the_pump_finishes_first() {
    let outcome = session_outcome(RaceWinner::First { result: Ok(()) });
    assert_eq!(outcome, Ok(()));
}

#[test]
fn the_session_outcome_is_the_cycle_fault_when_the_cycle_finishes_first() {
    let fault = Fault::new(-7);
    let outcome = session_outcome(RaceWinner::Second { result: Err(fault) });
    assert_eq!(outcome, Err(fault));
}
