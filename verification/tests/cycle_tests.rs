use telemetry_session::cycle::{
    cycle_expects, cycle_run, cycle_start, cycle_step, ActKind, CycleAction, CycleEvent,
    CycleState, PACING_DELAY_MILLIS, RETRY_DELAY_MILLIS, SETTLE_DELAY_MILLIS,
};
use telemetry_session::fault::Fault;
use telemetry_session::telemetry::{serialize_sample, Sample, Scalar, Triple};

fn scalar(neg: bool, int_part: u32, frac: Vec<u8>) -> Scalar {
    Scalar::new(neg, int_part, frac).unwrap()
}

fn gyro_reading() -> Triple {
    Triple::new(
        scalar(false, 0, vec![1]),
        scalar(false, 0, vec![2]),
        scalar(false, 0, vec![3]),
    )
}

fn acc_reading() -> Triple {
    Triple::new(
        scalar(false, 1, vec![0]),
        scalar(true, 2, vec![5]),
        scalar(false, 0, vec![0]),
    )
}

fn is_wait(a: &CycleAction, millis: u64) -> bool {
    matches!(a, CycleAction::Wait { millis: m } if *m == millis)
}

#[test]
fn the_first_action_is_a_subscribe() {
    let (state, action) = cycle_start();
    assert!(matches!(state, CycleState::Subscribing));
    assert!(matches!(action, CycleAction::Subscribe));
}

#[test]
fn two_failed_subscribes_then_success_draw_three_subscribes_in_all() {
    let events = vec![
        CycleEvent::SubscribeFailed { fault: Fault::new(-1) },
        CycleEvent::Elapsed,
        CycleEvent::SubscribeFailed { fault: Fault::new(-2) },
        CycleEvent::Elapsed,
        CycleEvent::SubscribeOk,
    ];
    let (acts, state) = cycle_run(events).unwrap();
    assert_eq!(acts.len(), 5);
    assert!(is_wait(&acts[0], RETRY_DELAY_MILLIS));
    assert!(matches!(acts[1], CycleAction::Subscribe));
    assert!(is_wait(&acts[2], RETRY_DELAY_MILLIS));
    assert!(matches!(acts[3], CycleAction::Subscribe));
    // the success draws the settle delay, and nothing was published
    assert!(is_wait(&acts[4], SETTLE_DELAY_MILLIS));
    assert!(matches!(state, CycleState::Settling));
    let subscribes = acts
        .iter()
        .filter(|a| matches!(a, CycleAction::Subscribe))
        .count();
    // the entry subscribe from cycle_start plus one per retry
    assert_eq!(1 + subscribes, 3);
    assert!(!acts.iter().any(|a| matches!(a, CycleAction::Publish { .. })));
}

#[test]
fn a_settled_cycle_reads_serializes_publishes_and_paces_in_order() {
    let events = vec![
        CycleEvent::SubscribeOk,
        CycleEvent::Elapsed,
        CycleEvent::GyroRead { triple: gyro_reading() },
        CycleEvent::AccRead { triple: acc_reading() },
        CycleEvent::PublishOk,
        CycleEvent::Elapsed,
    ];
    let (acts, state) = cycle_run(events).unwrap();
    assert_eq!(acts.len(), 6);
    assert!(is_wait(&acts[0], SETTLE_DELAY_MILLIS));
    assert!(matches!(acts[1], CycleAction::ReadGyro));
    assert!(matches!(acts[2], CycleAction::ReadAcc));
    let expected = serialize_sample(&Sample::new(gyro_reading(), acc_reading()));
    match &acts[3] {
        CycleAction::Publish { payload } => assert_eq!(payload, &expected),
        other => panic!("expected a publish, got {:?}", other),
    }
    assert!(is_wait(&acts[4], PACING_DELAY_MILLIS));
    assert!(matches!(acts[5], CycleAction::ReadGyro));
    assert!(matches!(state, CycleState::ReadingGyro));
}

#[test]
fn a_sensor_failure_on_the_third_iteration_halts_after_two_published_cycles() {
    let fault = Fault::new(263);
    let mut events = vec![CycleEvent::SubscribeOk, CycleEvent::Elapsed];
    for _ in 0..2 {
        events.push(CycleEvent::GyroRead { triple: gyro_reading() });
        events.push(CycleEvent::AccRead { triple: acc_reading() });
        events.push(CycleEvent::PublishOk);
        events.push(CycleEvent::Elapsed);
    }
    events.push(CycleEvent::SensorFailed { fault });
    let (acts, state) = cycle_run(events).unwrap();
    let publishes = acts
        .iter()
        .filter(|a| matches!(a, CycleAction::Publish { .. }))
        .count();
    assert_eq!(publishes, 2);
    let pacing_waits = acts
        .iter()
        .filter(|a| is_wait(a, PACING_DELAY_MILLIS))
        .count();
    assert_eq!(pacing_waits, 2);
    assert!(matches!(acts.last(), Some(CycleAction::Halt { fault: f }) if *f == fault));
    assert!(matches!(state, CycleState::Failed { fault: f } if f == fault));
}

#[test]
fn a_publish_failure_halts_with_the_transport_fault_and_retries_nothing() {
    let fault = Fault::new(-7);
    let events = vec![
        CycleEvent::SubscribeOk,
        CycleEvent::Elapsed,
        CycleEvent::GyroRead { triple: gyro_reading() },
        CycleEvent::AccRead { triple: acc_reading() },
        CycleEvent::PublishFailed { fault },
    ];
    let (acts, state) = cycle_run(events).unwrap();
    assert!(matches!(acts.last(), Some(CycleAction::Halt { fault: f }) if *f == fault));
    assert!(!acts.iter().any(|a| matches!(a, CycleAction::Subscribe)));
    assert!(matches!(state, CycleState::Failed { fault: f } if f == fault));
}

#[test]
fn nothing_answers_a_halted_cycle() {
    let fault = Fault::new(-7);
    let events = vec![
        CycleEvent::SubscribeOk,
        CycleEvent::Elapsed,
        CycleEvent::GyroRead { triple: gyro_reading() },
        CycleEvent::AccRead { triple: acc_reading() },
        CycleEvent::PublishFailed { fault },
        CycleEvent::Elapsed,
    ];
    assert!(cycle_run(events).is_none());
}

#[test]
fn a_timer_failure_during_the_retry_delay_halts() {
    let fault = Fault::new(110);
    let events = vec![
        CycleEvent::SubscribeFailed { fault: Fault::new(-1) },
        CycleEvent::TimerFailed { fault },
    ];
    let (acts, state) = cycle_run(events).unwrap();
    assert_eq!(acts.len(), 2);
    assert!(matches!(acts[1], CycleAction::Halt { fault: f } if f == fault));
    assert!(matches!(state, CycleState::Failed { fault: f } if f == fault));
}

#[test]
fn an_event_that_answers_no_pending_call_is_refused() {
    // nothing was subscribed yet, so an elapse answers nothing
    assert!(cycle_run(vec![CycleEvent::Elapsed]).is_none());
    // a publish outcome cannot arrive while the subscribe is out
    assert!(cycle_run(vec![CycleEvent::PublishOk]).is_none());
}

#[test]
fn a_whole_session_trace_is_pinned_down_end_to_end() {
    // one failed subscribe, the successful one, the settle elapse, then two
    // untroubled publish iterations
    let events = vec![
        CycleEvent::SubscribeFailed { fault: Fault::new(-1) },
        CycleEvent::Elapsed,
        CycleEvent::SubscribeOk,
        CycleEvent::Elapsed,
        CycleEvent::GyroRead { triple: gyro_reading() },
        CycleEvent::AccRead { triple: acc_reading() },
        CycleEvent::PublishOk,
        CycleEvent::Elapsed,
        CycleEvent::GyroRead { triple: gyro_reading() },
        CycleEvent::AccRead { triple: acc_reading() },
        CycleEvent::PublishOk,
        CycleEvent::Elapsed,
    ];
    let (acts, state) = cycle_run(events).unwrap();
    assert_eq!(acts.len(), 12);
    assert!(is_wait(&acts[0], RETRY_DELAY_MILLIS));
    assert!(matches!(acts[1], CycleAction::Subscribe));
    assert!(is_wait(&acts[2], SETTLE_DELAY_MILLIS));
    assert!(matches!(acts[3], CycleAction::ReadGyro));
    let expected = serialize_sample(&Sample::new(gyro_reading(), acc_reading()));
    for base in [4usize, 8] {
        assert!(matches!(acts[base], CycleAction::ReadAcc));
        match &acts[base + 1] {
            CycleAction::Publish { payload } => assert_eq!(payload, &expected),
            other => panic!("expected a publish, got {:?}", other),
        }
        assert!(is_wait(&acts[base + 2], PACING_DELAY_MILLIS));
        assert!(matches!(acts[base + 3], CycleAction::ReadGyro));
    }
    assert!(matches!(state, CycleState::ReadingGyro));
}

#[test]
fn a_malformed_sensor_triple_is_refused() {
    let bad = Triple {
        x: Scalar { neg: false, int_part: 1, frac: vec![12] },
        y: scalar(false, 0, vec![0]),
        z: scalar(false, 0, vec![0]),
    };
    let (state, _) = cycle_step(
        CycleState::Settling,
        CycleEvent::Elapsed,
    );
    assert!(matches!(state, CycleState::ReadingGyro));
    assert!(!cycle_expects(&state, &CycleEvent::GyroRead { triple: bad }));
    let good = gyro_reading();
    assert!(cycle_expects(&state, &CycleEvent::GyroRead { triple: good }));
}
