use vstd::prelude::*;

use crate::cycle::{
    expects, init_state, lemma_run_append, lemma_run_snoc, next_act, next_state, run_acts,
    run_payloads, run_state, step_payload, valid_run, ActKind, CycleEvent, CycleState,
    PACING_DELAY_MILLIS, RETRY_DELAY_MILLIS, SETTLE_DELAY_MILLIS,
};
use crate::fault::Fault;
use crate::telemetry::{sample_bytes, Sample, Triple};

verus! {

/// How many entries of `acts` are the shape `k`.
pub open spec fn count_kind(acts: Seq<ActKind>, k: ActKind) -> nat
    decreases acts.len(),
{
    if acts.len() == 0 {
        0
    } else {
        (if acts[0] == k {
            1nat
        } else {
            0nat
        }) + count_kind(acts.drop_first(), k)
    }
}

/// A run issues one action and publishes one (possibly empty) byte string
/// per event.
pub proof fn lemma_run_lens(s: CycleState, evs: Seq<CycleEvent>)
    ensures
        run_acts(s, evs).len() == evs.len(),
        run_payloads(s, evs).len() == evs.len(),
    decreases evs.len(),
{
    if evs.len() > 0 {
        lemma_run_lens(next_state(s, evs[0]), evs.drop_first());
    }
}

/// The action and the bytes of step `i` of a run are those of the one
/// transition the state reached after `i` events makes on event `i`; and a
/// valid run is valid at every prefix.
pub proof fn lemma_run_index(s: CycleState, evs: Seq<CycleEvent>, i: int)
    requires
        0 <= i < evs.len(),
    ensures
        run_acts(s, evs)[i] == next_act(run_state(s, evs.take(i)), evs[i]),
        run_payloads(s, evs)[i] == step_payload(run_state(s, evs.take(i)), evs[i]),
        valid_run(s, evs) ==> valid_run(s, evs.take(i)) && expects(
            run_state(s, evs.take(i)),
            evs[i],
        ),
{
    let a = evs.take(i);
    let b = evs.skip(i);
    assert(evs =~= a + b);
    lemma_run_append(s, a, b);
    lemma_run_lens(s, a);
    let m = run_state(s, a);
    assert(b[0] == evs[i]);
    assert(run_acts(s, evs)[i] == run_acts(m, b)[0]);
    assert(run_payloads(s, evs)[i] == run_payloads(m, b)[0]);
}

/// A publish failure terminates the publish cycle at once, with exactly the
/// transport's fault: the transition out of the publish wait on a failure
/// halts the branch, issues no new subscribe, and leaves a state that no
/// further event answers.
pub proof fn lemma_publish_failure_is_fatal(f: Fault, evs: Seq<CycleEvent>)
    ensures
        next_state(CycleState::Publishing, CycleEvent::PublishFailed { fault: f })
            == (CycleState::Failed { fault: f }),
        next_act(CycleState::Publishing, CycleEvent::PublishFailed { fault: f }) == (ActKind::Halt {
            fault: f,
        }),
        evs.len() > 0 ==> !valid_run(CycleState::Failed { fault: f }, evs),
{
}

/// A sensor read failure terminates the publish cycle at once, with exactly
/// the sensor's fault, whichever of the two reads was out.
pub proof fn lemma_sensor_failure_is_fatal(f: Fault, g: Triple)
    ensures
        next_state(CycleState::ReadingGyro, CycleEvent::SensorFailed { fault: f })
            == (CycleState::Failed { fault: f }),
        next_act(CycleState::ReadingGyro, CycleEvent::SensorFailed { fault: f }) == (ActKind::Halt {
            fault: f,
        }),
        next_state(CycleState::ReadingAcc { gyro: g }, CycleEvent::SensorFailed { fault: f })
            == (CycleState::Failed { fault: f }),
        next_act(CycleState::ReadingAcc { gyro: g }, CycleEvent::SensorFailed { fault: f })
            == (ActKind::Halt { fault: f }),
{
}

/// One full inner-loop iteration from the read state — a fresh angular-rate
/// read, a fresh acceleration read, a successful publish, an elapsed pacing
/// delay — issues exactly one acceleration read, one publish, one 2 s wait
/// and the next angular-rate read, in that order; the one publish carries
/// exactly the serialization of the two triples just read; and the cycle is
/// back at the read state.
pub proof fn lemma_inner_iteration(g: Triple, a: Triple)
    requires
        g.wf(),
        a.wf(),
    ensures
        ({
            let evs = seq![
                CycleEvent::GyroRead { triple: g },
                CycleEvent::AccRead { triple: a },
                CycleEvent::PublishOk,
                CycleEvent::Elapsed,
            ];
            &&& valid_run(CycleState::ReadingGyro, evs)
            &&& run_state(CycleState::ReadingGyro, evs) == CycleState::ReadingGyro
            &&& run_acts(CycleState::ReadingGyro, evs) == seq![
                ActKind::ReadAcc,
                ActKind::Publish,
                ActKind::Wait { millis: PACING_DELAY_MILLIS },
                ActKind::ReadGyro,
            ]
            &&& run_payloads(CycleState::ReadingGyro, evs) == seq![
                Seq::<u8>::empty(),
                sample_bytes(Sample { gyro: g, acc: a }),
                Seq::<u8>::empty(),
                Seq::<u8>::empty(),
            ]
        }),
{
    let s0 = CycleState::ReadingGyro;
    let e1 = CycleEvent::GyroRead { triple: g };
    let e2 = CycleEvent::AccRead { triple: a };
    let e3 = CycleEvent::PublishOk;
    let e4 = CycleEvent::Elapsed;
    let p0 = Seq::<CycleEvent>::empty();
    let p1 = p0.push(e1);
    let p2 = p1.push(e2);
    let p3 = p2.push(e3);
    let p4 = p3.push(e4);
    lemma_run_snoc(s0, p0, e1);
    lemma_run_snoc(s0, p1, e2);
    lemma_run_snoc(s0, p2, e3);
    lemma_run_snoc(s0, p3, e4);
    let evs = seq![e1, e2, e3, e4];
    assert(evs =~= p4);
    assert(run_acts(s0, evs) =~= seq![
        ActKind::ReadAcc,
        ActKind::Publish,
        ActKind::Wait { millis: PACING_DELAY_MILLIS },
        ActKind::ReadGyro,
    ]);
    assert(run_payloads(s0, evs) =~= seq![
        Seq::<u8>::empty(),
        sample_bytes(Sample { gyro: g, acc: a }),
        Seq::<u8>::empty(),
        Seq::<u8>::empty(),
    ]);
}

/// Counting over a concatenation splits into the two parts.
pub proof fn lemma_count_append(a: Seq<ActKind>, b: Seq<ActKind>, k: ActKind)
    ensures
        count_kind(a + b, k) == count_kind(a, k) + count_kind(b, k),
    decreases a.len(),
{
    if a.len() == 0 {
        assert(a + b =~= b);
    } else {
        assert((a + b)[0] == a[0]);
        assert((a + b).drop_first() =~= a.drop_first() + b);
        lemma_count_append(a.drop_first(), b, k);
    }
}

/// `n` failed subscribe attempts, each answered by its retry delay
/// elapsing: the canonical events of the outer retry loop.
pub open spec fn retry_events(faults: Seq<Fault>) -> Seq<CycleEvent>
    decreases faults.len(),
{
    if faults.len() == 0 {
        Seq::<CycleEvent>::empty()
    } else {
        seq![CycleEvent::SubscribeFailed { fault: faults[0] }, CycleEvent::Elapsed]
            + retry_events(faults.drop_first())
    }
}

/// The actions those failures draw: the fixed retry delay, then the next
/// subscribe, once per failure.
pub open spec fn retry_acts(n: nat) -> Seq<ActKind>
    decreases n,
{
    if n == 0 {
        Seq::<ActKind>::empty()
    } else {
        seq![ActKind::Wait { millis: RETRY_DELAY_MILLIS }, ActKind::Subscribe] + retry_acts(
            (n - 1) as nat,
        )
    }
}

/// The outer retry loop behaves the same however many times it goes round:
/// each failed subscribe draws the fixed retry delay and then, once the
/// delay elapses, exactly one fresh subscribe, and the cycle is again
/// waiting on a subscribe.
pub proof fn lemma_retry_loop(faults: Seq<Fault>)
    ensures
        valid_run(CycleState::Subscribing, retry_events(faults)),
        run_state(CycleState::Subscribing, retry_events(faults)) == CycleState::Subscribing,
        run_acts(CycleState::Subscribing, retry_events(faults)) == retry_acts(faults.len()),
    decreases faults.len(),
{
    let s0 = CycleState::Subscribing;
    if faults.len() == 0 {
        assert(run_acts(s0, retry_events(faults)) =~= retry_acts(0));
    } else {
        let e1 = CycleEvent::SubscribeFailed { fault: faults[0] };
        let e2 = CycleEvent::Elapsed;
        let head = seq![e1, e2];
        let tail = retry_events(faults.drop_first());
        let p0 = Seq::<CycleEvent>::empty();
        let p1 = p0.push(e1);
        lemma_run_snoc(s0, p0, e1);
        lemma_run_snoc(s0, p1, e2);
        assert(head =~= p1.push(e2));
        assert(run_state(s0, head) == s0);
        assert(run_acts(s0, head) =~= seq![
            ActKind::Wait { millis: RETRY_DELAY_MILLIS },
            ActKind::Subscribe,
        ]);
        lemma_run_append(s0, head, tail);
        lemma_retry_loop(faults.drop_first());
        assert(retry_events(faults) == head + tail);
        assert(run_acts(s0, retry_events(faults)) =~= retry_acts(faults.len()));
    }
}

/// Everything the retry loop issues is a retry delay or a subscribe: `n`
/// of each for `n` failures, and never a publish.
pub proof fn lemma_retry_acts_counts(n: nat)
    ensures
        retry_acts(n).len() == 2 * n,
        count_kind(retry_acts(n), ActKind::Subscribe) == n,
        count_kind(retry_acts(n), ActKind::Publish) == 0,
    decreases n,
{
    reveal_with_fuel(count_kind, 4);
    if n > 0 {
        let head = seq![ActKind::Wait { millis: RETRY_DELAY_MILLIS }, ActKind::Subscribe];
        assert(head.drop_first() =~= seq![ActKind::Subscribe]);
        assert(seq![ActKind::Subscribe].drop_first() =~= Seq::<ActKind>::empty());
        lemma_count_append(head, retry_acts((n - 1) as nat), ActKind::Subscribe);
        lemma_count_append(head, retry_acts((n - 1) as nat), ActKind::Publish);
        lemma_retry_acts_counts((n - 1) as nat);
        assert(count_kind(head, ActKind::Subscribe) == 1);
        assert(count_kind(head, ActKind::Publish) == 0);
    }
}

/// When the first `n` subscribe attempts fail and the next one succeeds,
/// the cycle issues exactly `n + 1` subscribes — the one it starts with and
/// one per elapsed retry delay — each failure followed by the fixed retry
/// delay before the next attempt; the success draws the settle delay; and
/// no step along the way publishes anything.
pub proof fn lemma_subscribe_retry_until_success(faults: Seq<Fault>)
    ensures
        ({
            let evs = retry_events(faults).push(CycleEvent::SubscribeOk);
            let with_entry = seq![ActKind::Subscribe] + run_acts(init_state(), evs);
            &&& valid_run(init_state(), evs)
            &&& run_state(init_state(), evs) == CycleState::Settling
            &&& run_acts(init_state(), evs) == retry_acts(faults.len()).push(
                ActKind::Wait { millis: SETTLE_DELAY_MILLIS },
            )
            &&& count_kind(with_entry, ActKind::Subscribe) == faults.len() + 1
            &&& count_kind(with_entry, ActKind::Publish) == 0
        }),
{
    reveal_with_fuel(count_kind, 3);
    let pre = retry_events(faults);
    let evs = pre.push(CycleEvent::SubscribeOk);
    lemma_retry_loop(faults);
    lemma_run_snoc(init_state(), pre, CycleEvent::SubscribeOk);
    let settle = ActKind::Wait { millis: SETTLE_DELAY_MILLIS };
    let acts = retry_acts(faults.len()).push(settle);
    assert(run_acts(init_state(), evs) == acts);
    let with_entry = seq![ActKind::Subscribe] + run_acts(init_state(), evs);
    lemma_retry_acts_counts(faults.len());
    assert(acts =~= retry_acts(faults.len()) + seq![settle]);
    lemma_count_append(retry_acts(faults.len()), seq![settle], ActKind::Subscribe);
    lemma_count_append(retry_acts(faults.len()), seq![settle], ActKind::Publish);
    assert(seq![settle].drop_first() =~= Seq::<ActKind>::empty());
    assert(seq![ActKind::Subscribe].drop_first() =~= Seq::<ActKind>::empty());
    assert(count_kind(seq![settle], ActKind::Subscribe) == 0);
    assert(count_kind(seq![settle], ActKind::Publish) == 0);
    lemma_count_append(seq![ActKind::Subscribe], acts, ActKind::Subscribe);
    lemma_count_append(seq![ActKind::Subscribe], acts, ActKind::Publish);
    assert(count_kind(seq![ActKind::Subscribe], ActKind::Subscribe) == 1);
    assert(count_kind(seq![ActKind::Subscribe], ActKind::Publish) == 0);
}

/// The events of `n` untroubled inner-loop iterations: for each sample, its
/// two fresh reads, the publish acknowledgment, and the elapsed pacing
/// delay.
pub open spec fn inner_events(samples: Seq<(Triple, Triple)>) -> Seq<CycleEvent>
    decreases samples.len(),
{
    if samples.len() == 0 {
        Seq::<CycleEvent>::empty()
    } else {
        seq![
            CycleEvent::GyroRead { triple: samples[0].0 },
            CycleEvent::AccRead { triple: samples[0].1 },
            CycleEvent::PublishOk,
            CycleEvent::Elapsed,
        ] + inner_events(samples.drop_first())
    }
}

/// The actions `n` untroubled iterations issue, four per iteration.
pub open spec fn inner_acts(n: nat) -> Seq<ActKind>
    decreases n,
{
    if n == 0 {
        Seq::<ActKind>::empty()
    } else {
        seq![
            ActKind::ReadAcc,
            ActKind::Publish,
            ActKind::Wait { millis: PACING_DELAY_MILLIS },
            ActKind::ReadGyro,
        ] + inner_acts((n - 1) as nat)
    }
}

/// The bytes `n` untroubled iterations publish: per iteration, exactly the
/// serialization of the pair of triples read in that iteration, at the
/// publish step and nowhere else.
pub open spec fn inner_payloads(samples: Seq<(Triple, Triple)>) -> Seq<Seq<u8>>
    decreases samples.len(),
{
    if samples.len() == 0 {
        Seq::<Seq<u8>>::empty()
    } else {
        seq![
            Seq::<u8>::empty(),
            sample_bytes(Sample { gyro: samples[0].0, acc: samples[0].1 }),
            Seq::<u8>::empty(),
            Seq::<u8>::empty(),
        ] + inner_payloads(samples.drop_first())
    }
}

/// The publish cadence holds however many iterations run: each iteration
/// reads, publishes exactly its own fresh pair serialized, paces, and hands
/// the loop back to the read state.
pub proof fn lemma_publish_cadence(samples: Seq<(Triple, Triple)>)
    requires
        forall|i: int| 0 <= i < samples.len() ==> (#[trigger] samples[i]).0.wf()
            && samples[i].1.wf(),
    ensures
        valid_run(CycleState::ReadingGyro, inner_events(samples)),
        run_state(CycleState::ReadingGyro, inner_events(samples)) == CycleState::ReadingGyro,
        run_acts(CycleState::ReadingGyro, inner_events(samples)) == inner_acts(samples.len()),
        run_payloads(CycleState::ReadingGyro, inner_events(samples)) == inner_payloads(samples),
    decreases samples.len(),
{
    let s0 = CycleState::ReadingGyro;
    if samples.len() == 0 {
        assert(run_acts(s0, inner_events(samples)) =~= inner_acts(0));
        assert(run_payloads(s0, inner_events(samples)) =~= inner_payloads(samples));
    } else {
        let g = samples[0].0;
        let a = samples[0].1;
        let head = seq![
            CycleEvent::GyroRead { triple: g },
            CycleEvent::AccRead { triple: a },
            CycleEvent::PublishOk,
            CycleEvent::Elapsed,
        ];
        let tail = inner_events(samples.drop_first());
        lemma_inner_iteration(g, a);
        lemma_run_append(s0, head, tail);
        assert(forall|i: int|
            0 <= i < samples.drop_first().len() ==> samples.drop_first()[i] == samples[i + 1]);
        lemma_publish_cadence(samples.drop_first());
        assert(inner_events(samples) == head + tail);
        assert(run_acts(s0, inner_events(samples)) =~= inner_acts(samples.len()));
        assert(run_payloads(s0, inner_events(samples)) =~= inner_payloads(samples));
    }
}

/// Each iteration publishes exactly once: `n` iterations, `n` publishes.
pub proof fn lemma_one_publish_per_iteration(n: nat)
    ensures
        inner_acts(n).len() == 4 * n,
        count_kind(inner_acts(n), ActKind::Publish) == n,
        count_kind(inner_acts(n), ActKind::Subscribe) == 0,
    decreases n,
{
    reveal_with_fuel(count_kind, 6);
    if n > 0 {
        let head = seq![
            ActKind::ReadAcc,
            ActKind::Publish,
            ActKind::Wait { millis: PACING_DELAY_MILLIS },
            ActKind::ReadGyro,
        ];
        assert(head.drop_first() =~= seq![
            ActKind::Publish,
            ActKind::Wait { millis: PACING_DELAY_MILLIS },
            ActKind::ReadGyro,
        ]);
        assert(head.drop_first().drop_first() =~= seq![
            ActKind::Wait { millis: PACING_DELAY_MILLIS },
            ActKind::ReadGyro,
        ]);
        assert(head.drop_first().drop_first().drop_first() =~= seq![ActKind::ReadGyro]);
        assert(seq![ActKind::ReadGyro].drop_first() =~= Seq::<ActKind>::empty());
        lemma_count_append(head, inner_acts((n - 1) as nat), ActKind::Publish);
        lemma_count_append(head, inner_acts((n - 1) as nat), ActKind::Subscribe);
        lemma_one_publish_per_iteration((n - 1) as nat);
        assert(count_kind(head, ActKind::Publish) == 1);
        assert(count_kind(head, ActKind::Subscribe) == 0);
    }
}

/// The whole canonical session trace, end to end: `n` failed subscribe
/// attempts, the successful one, its settle delay elapsing, then `m`
/// untroubled publish iterations — every action and every published byte
/// pinned down.
pub proof fn lemma_session_trace(faults: Seq<Fault>, samples: Seq<(Triple, Triple)>)
    requires
        forall|i: int| 0 <= i < samples.len() ==> (#[trigger] samples[i]).0.wf()
            && samples[i].1.wf(),
    ensures
        ({
            let evs = retry_events(faults).push(CycleEvent::SubscribeOk).push(CycleEvent::Elapsed)
                + inner_events(samples);
            let acts = retry_acts(faults.len()) + seq![
                ActKind::Wait { millis: SETTLE_DELAY_MILLIS },
                ActKind::ReadGyro,
            ] + inner_acts(samples.len());
            &&& valid_run(init_state(), evs)
            &&& run_state(init_state(), evs) == CycleState::ReadingGyro
            &&& run_acts(init_state(), evs) == acts
        }),
{
    let s0 = init_state();
    let pre = retry_events(faults).push(CycleEvent::SubscribeOk).push(CycleEvent::Elapsed);
    lemma_retry_loop(faults);
    lemma_run_snoc(s0, retry_events(faults), CycleEvent::SubscribeOk);
    lemma_run_snoc(s0, retry_events(faults).push(CycleEvent::SubscribeOk), CycleEvent::Elapsed);
    assert(run_state(s0, pre) == CycleState::ReadingGyro);
    lemma_run_append(s0, pre, inner_events(samples));
    lemma_publish_cadence(samples);
    assert(run_acts(s0, pre + inner_events(samples)) =~= retry_acts(faults.len()) + seq![
        ActKind::Wait { millis: SETTLE_DELAY_MILLIS },
        ActKind::ReadGyro,
    ] + inner_acts(samples.len()));
}

/// The subscribe retry layer's states, with the terminal one.
pub open spec fn outer_state(s: CycleState) -> bool {
    s is Subscribing || s is RetryWaiting || s is Failed
}

/// The inner publish loop's states.
pub open spec fn inner_state(s: CycleState) -> bool {
    s is Settling || s is ReadingGyro || s is ReadingAcc || s is Publishing || s is Pacing
}

/// Until a subscribe attempt is acknowledged, the cycle stays in the retry
/// layer and issues neither a read nor a publish: a valid run whose events
/// hold no subscribe success starts and ends outside the inner loop and
/// publishes nothing at any step.
pub proof fn lemma_no_publish_before_subscribe_ok(s: CycleState, evs: Seq<CycleEvent>)
    requires
        outer_state(s),
        valid_run(s, evs),
        forall|i: int| 0 <= i < evs.len() ==> !(evs[i] is SubscribeOk),
    ensures
        outer_state(run_state(s, evs)),
        count_kind(run_acts(s, evs), ActKind::Publish) == 0,
        count_kind(run_acts(s, evs), ActKind::ReadGyro) == 0,
        count_kind(run_acts(s, evs), ActKind::ReadAcc) == 0,
        forall|i: int|
            0 <= i < evs.len() ==> run_payloads(s, evs)[i] == Seq::<u8>::empty(),
    decreases evs.len(),
{
    lemma_run_lens(s, evs);
    if evs.len() > 0 {
        let e = evs[0];
        let t = next_state(s, e);
        assert(outer_state(t));
        lemma_no_publish_before_subscribe_ok(t, evs.drop_first());
        assert(forall|i: int|
            0 <= i < evs.drop_first().len() ==> evs.drop_first()[i] == evs[i + 1]);
        assert(run_acts(s, evs).drop_first() =~= run_acts(t, evs.drop_first()));
        assert(run_payloads(s, evs).drop_first() =~= run_payloads(t, evs.drop_first()));
        assert(run_acts(s, evs)[0] == next_act(s, e));
        assert(next_act(s, e) != ActKind::Publish);
        assert(forall|i: int|
            1 <= i < evs.len() ==> run_payloads(s, evs)[i] == run_payloads(
                t,
                evs.drop_first(),
            )[i - 1]);
    }
}

/// Whether the events of `evs` show a completed settle: a subscribe
/// success, answered while a subscribe was out, whose drawn settle delay
/// later elapsed.
pub open spec fn shows_settle(evs: Seq<CycleEvent>) -> bool {
    exists|j: int, k: int|
        {
            &&& 0 <= j < k < evs.len()
            &&& #[trigger] evs[j] is SubscribeOk
            &&& run_state(init_state(), evs.take(j)) is Subscribing
            &&& #[trigger] evs[k] is Elapsed
            &&& run_state(init_state(), evs.take(k)) is Settling
        }
}

/// What must already have happened for the cycle to stand where it stands:
/// the settle wait runs only right after a subscribe success, and the inner
/// loop is reached only once a settle wait has elapsed.
pub proof fn lemma_settle_history(evs: Seq<CycleEvent>)
    requires
        valid_run(init_state(), evs),
    ensures
        run_state(init_state(), evs) is Settling ==> evs.len() > 0 && evs.last() is SubscribeOk
            && run_state(init_state(), evs.drop_last()) is Subscribing,
        inner_state(run_state(init_state(), evs)) && !(run_state(init_state(), evs) is Settling)
            ==> shows_settle(evs),
    decreases evs.len(),
{
    let s0 = init_state();
    if evs.len() > 0 {
        let pre = evs.drop_last();
        let e = evs.last();
        assert(evs =~= pre.push(e));
        lemma_run_snoc(s0, pre, e);
        lemma_settle_history(pre);
        let sp = run_state(s0, pre);
        let sf = run_state(s0, evs);
        assert(forall|j: int| 0 <= j <= pre.len() ==> evs.take(j) =~= pre.take(j));
        if inner_state(sf) && !(sf is Settling) {
            if sp is Settling {
                let j = pre.len() - 1;
                let k = pre.len() as int;
                assert(evs.take(j) =~= pre.drop_last());
                assert(evs.take(k) =~= pre);
                assert(evs[j] == pre.last());
                assert(evs[k] == e);
                assert(evs[j] is SubscribeOk && run_state(s0, evs.take(j)) is Subscribing
                    && evs[k] is Elapsed && run_state(s0, evs.take(k)) is Settling);
                assert(shows_settle(evs));
            } else {
                assert(inner_state(sp) && !(sp is Settling));
                assert(shows_settle(pre));
                let (j, k): (int, int) = choose|j: int, k: int|
                    {
                        &&& 0 <= j < k < pre.len()
                        &&& #[trigger] pre[j] is SubscribeOk
                        &&& run_state(init_state(), pre.take(j)) is Subscribing
                        &&& #[trigger] pre[k] is Elapsed
                        &&& run_state(init_state(), pre.take(k)) is Settling
                    };
                assert(evs[j] == pre[j] && evs[k] == pre[k]);
                assert(evs[j] is SubscribeOk && run_state(s0, evs.take(j)) is Subscribing
                    && evs[k] is Elapsed && run_state(s0, evs.take(k)) is Settling);
                assert(shows_settle(evs));
            }
        }
    }
}

/// After a successful subscribe, the settle delay elapses before the first
/// publish: every step of a valid run that publishes is preceded by a
/// subscribe success — whose step draws exactly the fixed settle wait — and,
/// later but still earlier than the publish, by the elapse of that wait.
pub proof fn lemma_settle_before_publish(evs: Seq<CycleEvent>, i: int)
    requires
        valid_run(init_state(), evs),
        0 <= i < evs.len(),
        run_acts(init_state(), evs)[i] == ActKind::Publish,
    ensures
        exists|j: int, k: int|
            {
                &&& 0 <= j < k < i
                &&& #[trigger] evs[j] is SubscribeOk
                &&& run_acts(init_state(), evs)[j] == ActKind::Wait {
                    millis: SETTLE_DELAY_MILLIS,
                }
                &&& #[trigger] evs[k] is Elapsed
                &&& run_state(init_state(), evs.take(k)) is Settling
            },
{
    let s0 = init_state();
    lemma_run_index(s0, evs, i);
    let m = run_state(s0, evs.take(i));
    assert(m is ReadingAcc);
    lemma_settle_history(evs.take(i));
    assert(shows_settle(evs.take(i)));
    let pre = evs.take(i);
    let (j, k): (int, int) = choose|j: int, k: int|
        {
            &&& 0 <= j < k < pre.len()
            &&& #[trigger] pre[j] is SubscribeOk
            &&& run_state(init_state(), pre.take(j)) is Subscribing
            &&& #[trigger] pre[k] is Elapsed
            &&& run_state(init_state(), pre.take(k)) is Settling
        };
    assert(forall|n: int| 0 <= n <= pre.len() ==> evs.take(n) =~= pre.take(n));
    lemma_run_index(s0, evs, j);
    assert(evs[j] == pre[j] && evs[k] == pre[k]);
    assert(run_acts(s0, evs)[j] == next_act(run_state(s0, evs.take(j)), evs[j]));
    assert(run_acts(s0, evs)[j] == ActKind::Wait { millis: SETTLE_DELAY_MILLIS });
    assert(run_state(s0, evs.take(k)) is Settling);
    assert({
        &&& 0 <= j < k < i
        &&& evs[j] is SubscribeOk
        &&& run_acts(init_state(), evs)[j] == ActKind::Wait { millis: SETTLE_DELAY_MILLIS }
        &&& evs[k] is Elapsed
        &&& run_state(init_state(), evs.take(k)) is Settling
    });
}

} // verus!
