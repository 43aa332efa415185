use vstd::prelude::*;

verus! {

/// Appends the NUL byte that a PEM certificate parser expects at the end of
/// the buffer it is handed, so the owner can pass the buffer on by move
/// without a second copy.
pub fn nul_terminate(bytes: Vec<u8>) -> (r: Vec<u8>)
    ensures
        r@ == bytes@.push(0u8),
{
    let mut out = bytes;
    out.push(0);
    out
}

} // verus!
