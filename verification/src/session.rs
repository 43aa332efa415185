use vstd::prelude::*;

use crate::fault::Fault;
use crate::pump::{closes, pump_outcome, PumpEvent};

verus! {

/// Which of the two racing branches finished first, and the result it
/// finished with.  The first branch is the connection pump, the second the
/// publish cycle; the loser is abandoned in place, never awaited again.
#[derive(Clone, Copy, Debug)]
pub enum RaceWinner {
    First { result: Result<(), Fault> },
    Second { result: Result<(), Fault> },
}

/// The result the winning branch finished with.
pub open spec fn winner_result(w: RaceWinner) -> Result<(), Fault> {
    match w {
        RaceWinner::First { result } => result,
        RaceWinner::Second { result } => result,
    }
}

/// The supervisor's whole decision: the session's outcome is exactly the
/// result of whichever branch finished first.  It adds nothing, absorbs
/// nothing, and signals no cancellation to the other branch.
pub fn session_outcome(w: RaceWinner) -> (r: Result<(), Fault>)
    ensures
        r == winner_result(w),
{
    match w {
        RaceWinner::First { result } => result,
        RaceWinner::Second { result } => result,
    }
}

/// A close or error of the receive stream ends the pump branch at once,
/// with the pump's own (error-free) result; and when that branch finishes
/// first, the session's outcome is exactly that result.
pub proof fn lemma_pump_close_ends_session(evs: Seq<PumpEvent>)
    requires
        closes(evs),
    ensures
        pump_outcome(evs) == Some(Result::<(), Fault>::Ok(())),
        forall|r: Result<(), Fault>|
            winner_result(RaceWinner::First { result: r }) == r,
{
}

} // verus!
