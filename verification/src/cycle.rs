use vstd::prelude::*;

use crate::fault::Fault;
use crate::telemetry::{sample_bytes, serialize_sample, triple_wf, Sample, Triple};

verus! {

/// Fixed delay before retrying a failed subscribe, in milliseconds.
pub const RETRY_DELAY_MILLIS: u64 = 500;

/// Fixed settle delay after a successful subscribe, before the first
/// publish, in milliseconds.
pub const SETTLE_DELAY_MILLIS: u64 = 500;

/// Fixed pacing interval after a successful publish, in milliseconds.
pub const PACING_DELAY_MILLIS: u64 = 2000;

/// Where the publish cycle stands between two collaborator calls.  Each
/// state names the call whose outcome the cycle is waiting for.
#[derive(Debug)]
pub enum CycleState {
    /// A subscribe request is out.
    Subscribing,
    /// A subscribe failed; the retry delay is running.
    RetryWaiting,
    /// A subscribe succeeded; the settle delay is running.
    Settling,
    /// The angular-rate read is out.
    ReadingGyro,
    /// The acceleration read is out; the angular-rate triple is in hand.
    ReadingAcc { gyro: Triple },
    /// A publish request is out.
    Publishing,
    /// A publish succeeded; the pacing delay is running.
    Pacing,
    /// Terminal: the branch ended with this fault.
    Failed { fault: Fault },
}

/// What a collaborator call came back with.  The shell performs the action
/// the cycle asked for and answers with the matching event.
#[derive(Debug)]
pub enum CycleEvent {
    SubscribeOk,
    SubscribeFailed { fault: Fault },
    /// A requested delay ran to completion.
    Elapsed,
    TimerFailed { fault: Fault },
    GyroRead { triple: Triple },
    AccRead { triple: Triple },
    SensorFailed { fault: Fault },
    PublishOk,
    PublishFailed { fault: Fault },
}

/// The next call the shell must make on the cycle's behalf.
#[derive(Debug)]
pub enum CycleAction {
    /// Subscribe to the session topic at most-once quality of service.
    Subscribe,
    /// Wait this many milliseconds on the timer.
    Wait { millis: u64 },
    /// Read the angular-rate triple from the sensor.
    ReadGyro,
    /// Read the acceleration triple from the sensor.
    ReadAcc,
    /// Publish this payload to the session topic at most-once quality of
    /// service, without the retain flag.
    Publish { payload: Vec<u8> },
    /// Stop the branch and surface this fault.
    Halt { fault: Fault },
}

/// The shape of an action, with the payload bytes left aside so that action
/// traces can live in specifications.
#[derive(Clone, Copy, Debug, PartialEq, Eq, Structural)]
pub enum ActKind {
    Subscribe,
    Wait { millis: u64 },
    ReadGyro,
    ReadAcc,
    Publish,
    Halt { fault: Fault },
}

/// The shape of an action.
pub open spec fn act_kind(a: CycleAction) -> ActKind {
    match a {
        CycleAction::Subscribe => ActKind::Subscribe,
        CycleAction::Wait { millis } => ActKind::Wait { millis },
        CycleAction::ReadGyro => ActKind::ReadGyro,
        CycleAction::ReadAcc => ActKind::ReadAcc,
        CycleAction::Publish { .. } => ActKind::Publish,
        CycleAction::Halt { fault } => ActKind::Halt { fault },
    }
}

/// The bytes an action publishes; empty for every action but a publish.
pub open spec fn act_payload(a: CycleAction) -> Seq<u8> {
    match a {
        CycleAction::Publish { payload } => payload@,
        _ => Seq::<u8>::empty(),
    }
}

/// The states the cycle starts from and moves through all keep any triple
/// they carry well formed.
pub open spec fn state_wf(s: CycleState) -> bool {
    match s {
        CycleState::ReadingAcc { gyro } => gyro.wf(),
        _ => true,
    }
}

/// Which events answer the call that is out in state `s`.  A sensor triple
/// must arrive well formed: the shell builds it through the scalar
/// constructor, which admits nothing else.  No event answers a terminal
/// state.
pub open spec fn expects(s: CycleState, e: CycleEvent) -> bool {
    match s {
        CycleState::Subscribing => e is SubscribeOk || e is SubscribeFailed,
        CycleState::RetryWaiting => e is Elapsed || e is TimerFailed,
        CycleState::Settling => e is Elapsed || e is TimerFailed,
        CycleState::ReadingGyro => (e matches CycleEvent::GyroRead { triple } && triple.wf())
            || e is SensorFailed,
        CycleState::ReadingAcc { .. } => (e matches CycleEvent::AccRead { triple } && triple.wf())
            || e is SensorFailed,
        CycleState::Publishing => e is PublishOk || e is PublishFailed,
        CycleState::Pacing => e is Elapsed || e is TimerFailed,
        CycleState::Failed { .. } => false,
    }
}

/// The state after event `e` answers the call that is out in state `s`.
pub open spec fn next_state(s: CycleState, e: CycleEvent) -> CycleState {
    match (s, e) {
        (CycleState::Subscribing, CycleEvent::SubscribeOk) => CycleState::Settling,
        (CycleState::Subscribing, CycleEvent::SubscribeFailed { .. }) => CycleState::RetryWaiting,
        (CycleState::RetryWaiting, CycleEvent::Elapsed) => CycleState::Subscribing,
        (CycleState::RetryWaiting, CycleEvent::TimerFailed { fault }) => CycleState::Failed { fault },
        (CycleState::Settling, CycleEvent::Elapsed) => CycleState::ReadingGyro,
        (CycleState::Settling, CycleEvent::TimerFailed { fault }) => CycleState::Failed { fault },
        (CycleState::ReadingGyro, CycleEvent::GyroRead { triple }) => CycleState::ReadingAcc {
            gyro: triple,
        },
        (CycleState::ReadingGyro, CycleEvent::SensorFailed { fault }) => CycleState::Failed { fault },
        (CycleState::ReadingAcc { .. }, CycleEvent::AccRead { .. }) => CycleState::Publishing,
        (CycleState::ReadingAcc { .. }, CycleEvent::SensorFailed { fault }) => CycleState::Failed {
            fault,
        },
        (CycleState::Publishing, CycleEvent::PublishOk) => CycleState::Pacing,
        (CycleState::Publishing, CycleEvent::PublishFailed { fault }) => CycleState::Failed { fault },
        (CycleState::Pacing, CycleEvent::Elapsed) => CycleState::ReadingGyro,
        (CycleState::Pacing, CycleEvent::TimerFailed { fault }) => CycleState::Failed { fault },
        _ => arbitrary(),
    }
}

/// The shape of the action the cycle issues on this transition.
pub open spec fn next_act(s: CycleState, e: CycleEvent) -> ActKind {
    match (s, e) {
        (CycleState::Subscribing, CycleEvent::SubscribeOk) => ActKind::Wait {
            millis: SETTLE_DELAY_MILLIS,
        },
        (CycleState::Subscribing, CycleEvent::SubscribeFailed { .. }) => ActKind::Wait {
            millis: RETRY_DELAY_MILLIS,
        },
        (CycleState::RetryWaiting, CycleEvent::Elapsed) => ActKind::Subscribe,
        (CycleState::RetryWaiting, CycleEvent::TimerFailed { fault }) => ActKind::Halt { fault },
        (CycleState::Settling, CycleEvent::Elapsed) => ActKind::ReadGyro,
        (CycleState::Settling, CycleEvent::TimerFailed { fault }) => ActKind::Halt { fault },
        (CycleState::ReadingGyro, CycleEvent::GyroRead { .. }) => ActKind::ReadAcc,
        (CycleState::ReadingGyro, CycleEvent::SensorFailed { fault }) => ActKind::Halt { fault },
        (CycleState::ReadingAcc { .. }, CycleEvent::AccRead { .. }) => ActKind::Publish,
        (CycleState::ReadingAcc { .. }, CycleEvent::SensorFailed { fault }) => ActKind::Halt { fault },
        (CycleState::Publishing, CycleEvent::PublishOk) => ActKind::Wait {
            millis: PACING_DELAY_MILLIS,
        },
        (CycleState::Publishing, CycleEvent::PublishFailed { fault }) => ActKind::Halt { fault },
        (CycleState::Pacing, CycleEvent::Elapsed) => ActKind::ReadGyro,
        (CycleState::Pacing, CycleEvent::TimerFailed { fault }) => ActKind::Halt { fault },
        _ => arbitrary(),
    }
}

/// The bytes this transition publishes: the serialized sample built from the
/// two fresh reads when an acceleration read answers, empty otherwise.
pub open spec fn step_payload(s: CycleState, e: CycleEvent) -> Seq<u8> {
    match (s, e) {
        (CycleState::ReadingAcc { gyro }, CycleEvent::AccRead { triple }) => sample_bytes(
            Sample { gyro, acc: triple },
        ),
        _ => Seq::<u8>::empty(),
    }
}

/// The state the publish cycle starts in.
pub open spec fn init_state() -> CycleState {
    CycleState::Subscribing
}

/// Starts the publish cycle: the first action is always a subscribe, before
/// any other call.
pub fn cycle_start() -> (r: (CycleState, CycleAction))
    ensures
        r.0 == init_state(),
        state_wf(r.0),
        act_kind(r.1) == ActKind::Subscribe,
{
    (CycleState::Subscribing, CycleAction::Subscribe)
}

/// Whether event `e` answers the call that is out in state `s`.
pub fn cycle_expects(s: &CycleState, e: &CycleEvent) -> (r: bool)
    ensures
        r == expects(*s, *e),
{
    match (s, e) {
        (CycleState::Subscribing, CycleEvent::SubscribeOk) => true,
        (CycleState::Subscribing, CycleEvent::SubscribeFailed { .. }) => true,
        (CycleState::RetryWaiting, CycleEvent::Elapsed) => true,
        (CycleState::RetryWaiting, CycleEvent::TimerFailed { .. }) => true,
        (CycleState::Settling, CycleEvent::Elapsed) => true,
        (CycleState::Settling, CycleEvent::TimerFailed { .. }) => true,
        (CycleState::ReadingGyro, CycleEvent::GyroRead { triple }) => triple_wf(triple),
        (CycleState::ReadingGyro, CycleEvent::SensorFailed { .. }) => true,
        (CycleState::ReadingAcc { .. }, CycleEvent::AccRead { triple }) => triple_wf(triple),
        (CycleState::ReadingAcc { .. }, CycleEvent::SensorFailed { .. }) => true,
        (CycleState::Publishing, CycleEvent::PublishOk) => true,
        (CycleState::Publishing, CycleEvent::PublishFailed { .. }) => true,
        (CycleState::Pacing, CycleEvent::Elapsed) => true,
        (CycleState::Pacing, CycleEvent::TimerFailed { .. }) => true,
        _ => false,
    }
}

/// One decision of the publish cycle: consumes the event that answered the
/// call out in state `s` and returns the successor state together with the
/// next call to make.  A failed publish, a failed read or a failed timer
/// halts the branch with exactly the underlying fault; a failed subscribe
/// only schedules the fixed retry delay.
pub fn cycle_step(s: CycleState, e: CycleEvent) -> (r: (CycleState, CycleAction))
    requires
        state_wf(s),
        expects(s, e),
    ensures
        r.0 == next_state(s, e),
        state_wf(r.0),
        act_kind(r.1) == next_act(s, e),
        act_payload(r.1) == step_payload(s, e),
{
    match (s, e) {
        (CycleState::Subscribing, CycleEvent::SubscribeOk) => (
            CycleState::Settling,
            CycleAction::Wait { millis: SETTLE_DELAY_MILLIS },
        ),
        (CycleState::Subscribing, CycleEvent::SubscribeFailed { .. }) => (
            CycleState::RetryWaiting,
            CycleAction::Wait { millis: RETRY_DELAY_MILLIS },
        ),
        (CycleState::RetryWaiting, CycleEvent::Elapsed) => (
            CycleState::Subscribing,
            CycleAction::Subscribe,
        ),
        (CycleState::RetryWaiting, CycleEvent::TimerFailed { fault }) => (
            CycleState::Failed { fault },
            CycleAction::Halt { fault },
        ),
        (CycleState::Settling, CycleEvent::Elapsed) => (
            CycleState::ReadingGyro,
            CycleAction::ReadGyro,
        ),
        (CycleState::Settling, CycleEvent::TimerFailed { fault }) => (
            CycleState::Failed { fault },
            CycleAction::Halt { fault },
        ),
        (CycleState::ReadingGyro, CycleEvent::GyroRead { triple }) => (
            CycleState::ReadingAcc { gyro: triple },
            CycleAction::ReadAcc,
        ),
        (CycleState::ReadingGyro, CycleEvent::SensorFailed { fault }) => (
            CycleState::Failed { fault },
            CycleAction::Halt { fault },
        ),
        (CycleState::ReadingAcc { gyro }, CycleEvent::AccRead { triple }) => {
            let sample = Sample { gyro, acc: triple };
            let payload = serialize_sample(&sample);
            (CycleState::Publishing, CycleAction::Publish { payload })
        },
        (CycleState::ReadingAcc { .. }, CycleEvent::SensorFailed { fault }) => (
            CycleState::Failed { fault },
            CycleAction::Halt { fault },
        ),
        (CycleState::Publishing, CycleEvent::PublishOk) => (
            CycleState::Pacing,
            CycleAction::Wait { millis: PACING_DELAY_MILLIS },
        ),
        (CycleState::Publishing, CycleEvent::PublishFailed { fault }) => (
            CycleState::Failed { fault },
            CycleAction::Halt { fault },
        ),
        (CycleState::Pacing, CycleEvent::Elapsed) => (
            CycleState::ReadingGyro,
            CycleAction::ReadGyro,
        ),
        (CycleState::Pacing, CycleEvent::TimerFailed { fault }) => (
            CycleState::Failed { fault },
            CycleAction::Halt { fault },
        ),
        _ => vstd::pervasive::unreached(),
    }
}

/// The state after consuming the events of `evs` in order from state `s`.
pub open spec fn run_state(s: CycleState, evs: Seq<CycleEvent>) -> CycleState
    decreases evs.len(),
{
    if evs.len() == 0 {
        s
    } else {
        run_state(next_state(s, evs[0]), evs.drop_first())
    }
}

/// Whether each event of `evs` in turn answers the call out in the state it
/// meets.
pub open spec fn valid_run(s: CycleState, evs: Seq<CycleEvent>) -> bool
    decreases evs.len(),
{
    evs.len() == 0 || (expects(s, evs[0]) && valid_run(next_state(s, evs[0]), evs.drop_first()))
}

/// The shapes of the actions issued while consuming `evs` from `s`, one per
/// event, in order.
pub open spec fn run_acts(s: CycleState, evs: Seq<CycleEvent>) -> Seq<ActKind>
    decreases evs.len(),
{
    if evs.len() == 0 {
        Seq::<ActKind>::empty()
    } else {
        seq![next_act(s, evs[0])] + run_acts(next_state(s, evs[0]), evs.drop_first())
    }
}

/// The bytes each step publishes, one entry per event, in order; empty at
/// every step that publishes nothing.
pub open spec fn run_payloads(s: CycleState, evs: Seq<CycleEvent>) -> Seq<Seq<u8>>
    decreases evs.len(),
{
    if evs.len() == 0 {
        Seq::<Seq<u8>>::empty()
    } else {
        seq![step_payload(s, evs[0])] + run_payloads(next_state(s, evs[0]), evs.drop_first())
    }
}

/// A run over concatenated event sequences is the run over the first part
/// followed by the run over the second, started where the first ended.
pub proof fn lemma_run_append(s: CycleState, a: Seq<CycleEvent>, b: Seq<CycleEvent>)
    ensures
        run_state(s, a + b) == run_state(run_state(s, a), b),
        valid_run(s, a + b) <==> (valid_run(s, a) && valid_run(run_state(s, a), b)),
        run_acts(s, a + b) == run_acts(s, a) + run_acts(run_state(s, a), b),
        run_payloads(s, a + b) == run_payloads(s, a) + run_payloads(run_state(s, a), b),
    decreases a.len(),
{
    if a.len() == 0 {
        assert(a + b =~= b);
        assert(run_acts(s, a) + run_acts(run_state(s, a), b) =~= run_acts(s, b));
        assert(run_payloads(s, a) + run_payloads(run_state(s, a), b) =~= run_payloads(s, b));
    } else {
        let t = next_state(s, a[0]);
        assert((a + b)[0] == a[0]);
        assert((a + b).drop_first() =~= a.drop_first() + b);
        lemma_run_append(t, a.drop_first(), b);
        assert(run_acts(s, a + b) =~= run_acts(s, a) + run_acts(run_state(s, a), b));
        assert(run_payloads(s, a + b) =~= run_payloads(s, a) + run_payloads(run_state(s, a), b));
    }
}

/// Extending a run by one event appends one transition.
pub proof fn lemma_run_snoc(s: CycleState, evs: Seq<CycleEvent>, e: CycleEvent)
    ensures
        run_state(s, evs.push(e)) == next_state(run_state(s, evs), e),
        valid_run(s, evs.push(e)) <==> (valid_run(s, evs) && expects(run_state(s, evs), e)),
        run_acts(s, evs.push(e)) == run_acts(s, evs).push(next_act(run_state(s, evs), e)),
        run_payloads(s, evs.push(e)) == run_payloads(s, evs).push(
            step_payload(run_state(s, evs), e),
        ),
{
    let last = seq![e];
    assert(evs.push(e) =~= evs + last);
    lemma_run_append(s, evs, last);
    let m = run_state(s, evs);
    let m2 = next_state(m, e);
    assert(last.drop_first() =~= Seq::<CycleEvent>::empty());
    assert(run_state(m2, Seq::<CycleEvent>::empty()) == m2);
    assert(valid_run(m2, Seq::<CycleEvent>::empty()));
    assert(run_acts(m2, Seq::<CycleEvent>::empty()) =~= Seq::<ActKind>::empty());
    assert(run_payloads(m2, Seq::<CycleEvent>::empty()) =~= Seq::<Seq<u8>>::empty());
    assert(run_acts(m, last) =~= seq![next_act(m, e)]);
    assert(run_payloads(m, last) =~= seq![step_payload(m, e)]);
    assert(run_acts(s, evs).push(next_act(m, e)) =~= run_acts(s, evs) + seq![next_act(m, e)]);
    assert(run_payloads(s, evs).push(step_payload(m, e)) =~= run_payloads(s, evs) + seq![
        step_payload(m, e),
    ]);
}

/// Runs the publish cycle over a whole event sequence at once: returns the
/// actions issued and the final state exactly when every event answers the
/// call out in its state, and nothing otherwise.
pub fn cycle_run(events: Vec<CycleEvent>) -> (r: Option<(Vec<CycleAction>, CycleState)>)
    ensures
        r is Some <==> valid_run(init_state(), events@),
        r matches Some(p) ==> {
            &&& p.0@.map_values(|a: CycleAction| act_kind(a)) == run_acts(init_state(), events@)
            &&& p.0@.map_values(|a: CycleAction| act_payload(a)) == run_payloads(
                init_state(),
                events@,
            )
            &&& p.1 == run_state(init_state(), events@)
        },
{
    let ghost all = events@;
    let mut evs = events;
    let total: usize = evs.len();
    proof {
        assert(all.len() == total);
    }
    let mut st = CycleState::Subscribing;
    let mut acts: Vec<CycleAction> = Vec::new();
    let mut i: usize = 0;
    proof {
        assert(all.take(0) =~= Seq::<CycleEvent>::empty());
        assert(acts@.map_values(|a: CycleAction| act_kind(a)) =~= Seq::<ActKind>::empty());
        assert(acts@.map_values(|a: CycleAction| act_payload(a)) =~= Seq::<Seq<u8>>::empty());
    }
    #[verifier::loop_isolation(false)]
    while evs.len() > 0
        invariant
            i + evs@.len() == all.len(),
            all =~= all.take(i as int) + evs@,
            valid_run(init_state(), all.take(i as int)),
            st == run_state(init_state(), all.take(i as int)),
            state_wf(st),
            acts@.map_values(|a: CycleAction| act_kind(a)) == run_acts(
                init_state(),
                all.take(i as int),
            ),
            acts@.map_values(|a: CycleAction| act_payload(a)) == run_payloads(
                init_state(),
                all.take(i as int),
            ),
        decreases evs@.len(),
    {
        let ghost rest = evs@;
        let e = evs.remove(0);
        if !cycle_expects(&st, &e) {
            proof {
                lemma_run_append(init_state(), all.take(i as int), rest);
                assert(rest[0] == e);
                assert(!valid_run(st, rest));
                assert(!valid_run(init_state(), all));
            }
            return None;
        }
        let ghost pre_acts = acts@;
        let (st2, act) = cycle_step(st, e);
        proof {
            lemma_run_snoc(init_state(), all.take(i as int), e);
            assert(all.take(i as int).push(e) =~= all.take(i + 1));
            assert((pre_acts.push(act)).map_values(|a: CycleAction| act_kind(a)) =~= pre_acts
                .map_values(|a: CycleAction| act_kind(a)).push(act_kind(act)));
            assert((pre_acts.push(act)).map_values(|a: CycleAction| act_payload(a)) =~= pre_acts
                .map_values(|a: CycleAction| act_payload(a)).push(act_payload(act)));
        }
        st = st2;
        acts.push(act);
        i += 1;
    }
    proof {
        assert(all.take(i as int) =~= all);
    }
    Some((acts, st))
}

} // verus!
