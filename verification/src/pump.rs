use vstd::prelude::*;

use crate::fault::Fault;

verus! {

/// One answer from the receiving half of the transport.
#[derive(Debug)]
pub enum PumpEvent {
    /// An inbound protocol event arrived, with its payload description.
    Received { payload: Vec<u8> },
    /// The receive call signalled that the stream closed or errored.
    Closed,
}

/// What the connection pump does with one answer.
#[derive(Debug)]
pub enum PumpDirective {
    /// Hand the payload description to the log sink and keep draining.
    Log { payload: Vec<u8> },
    /// Stop the branch; the pump ends without an error of its own.
    Stop,
}

/// The pump's one decision: log and go on for every received event, stop
/// exactly when the stream closes or errors.
pub open spec fn pump_directive(e: PumpEvent) -> PumpDirective {
    match e {
        PumpEvent::Received { payload } => PumpDirective::Log { payload },
        PumpEvent::Closed => PumpDirective::Stop,
    }
}

/// Decides what to do with one inbound answer: log every received payload
/// unchanged and unfiltered, stop the branch the moment the stream closes.
/// No retry: a broken receive path ends the branch.
pub fn pump_step(e: PumpEvent) -> (r: PumpDirective)
    ensures
        r == pump_directive(e),
{
    match e {
        PumpEvent::Received { payload } => PumpDirective::Log { payload },
        PumpEvent::Closed => PumpDirective::Stop,
    }
}

/// Whether the stream closes somewhere in `evs`.
pub open spec fn closes(evs: Seq<PumpEvent>) -> bool
    decreases evs.len(),
{
    evs.len() > 0 && (evs[0] is Closed || closes(evs.drop_first()))
}

/// The payload descriptions the pump hands to the log sink: every received
/// event strictly before the first close, in arrival order.
pub open spec fn drained(evs: Seq<PumpEvent>) -> Seq<Seq<u8>>
    decreases evs.len(),
{
    if evs.len() == 0 {
        Seq::<Seq<u8>>::empty()
    } else {
        match evs[0] {
            PumpEvent::Received { payload } => seq![payload@] + drained(evs.drop_first()),
            PumpEvent::Closed => Seq::<Seq<u8>>::empty(),
        }
    }
}

/// The pump branch's result once the stream has closed: it terminates at
/// once and without an error of its own; while the stream is open it has no
/// result.
pub open spec fn pump_outcome(evs: Seq<PumpEvent>) -> Option<Result<(), Fault>> {
    if closes(evs) {
        Some(Result::<(), Fault>::Ok(()))
    } else {
        None
    }
}

/// Drains a whole sequence of inbound answers: returns the payloads logged
/// before the first close, and the branch's result — present exactly when
/// the stream closed, and then never an error.
pub fn pump_run(events: Vec<PumpEvent>) -> (r: (Vec<Vec<u8>>, Option<Result<(), Fault>>))
    ensures
        r.0@.map_values(|p: Vec<u8>| p@) == drained(events@),
        r.1 == pump_outcome(events@),
    decreases events@.len(),
{
    let ghost all = events@;
    let mut evs = events;
    if evs.len() == 0 {
        let logged: Vec<Vec<u8>> = Vec::new();
        proof {
            assert(logged@.map_values(|p: Vec<u8>| p@) =~= drained(all));
        }
        return (logged, None);
    }
    let e = evs.remove(0);
    match e {
        PumpEvent::Closed => {
            let logged: Vec<Vec<u8>> = Vec::new();
            proof {
                assert(logged@.map_values(|p: Vec<u8>| p@) =~= drained(all));
            }
            (logged, Some(Ok(())))
        },
        PumpEvent::Received { payload } => {
            let (rest_logged, outcome) = pump_run(evs);
            let mut logged = rest_logged;
            let ghost tail_logged = logged@;
            logged.insert(0, payload);
            proof {
                assert(all.drop_first() =~= evs@);
                assert(logged@.map_values(|p: Vec<u8>| p@) =~= seq![payload@] + tail_logged
                    .map_values(|p: Vec<u8>| p@));
                assert(logged@.map_values(|p: Vec<u8>| p@) =~= drained(all));
            }
            (logged, outcome)
        },
    }
}

} // verus!
