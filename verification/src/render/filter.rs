//! Full-screen filters: how many passes a filter runs.
use vstd::prelude::*;

verus! {

/// The number of passes a filter runs when `passes` are asked for: at least
/// one.
pub fn filter_passes(passes: u32) -> (r: u32)
    ensures
        r == (if passes < 1 { 1 } else { passes }),
{
    if passes < 1 {
        1
    } else {
        passes
    }
}

} // verus!
