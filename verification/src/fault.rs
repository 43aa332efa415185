use vstd::prelude::*;

verus! {

/// Error reported by a collaborator call (transport, timer or sensor bus),
/// carried as the collaborator's raw status code.
#[derive(Clone, Copy, Debug, PartialEq, Eq, Structural)]
pub struct Fault {
    pub code: i32,
}

impl Fault {
    pub fn new(code: i32) -> (r: Fault)
        ensures
            r.code == code,
    {
        Fault { code }
    }
}

} // verus!
