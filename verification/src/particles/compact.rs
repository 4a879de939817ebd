//! Stream compaction: the indices of the flagged elements, in order, planned
//! as flag → prefix sum → scatter, with the count read back from the end of
//! the scanned buffer.
use crate::arith::{ceil_div, div_ceil_u64};
use crate::bytes::{u32_from_le, u32_from_le_bytes};
use vstd::prelude::*;

verus! {

/// Threads per workgroup of the flag and scatter kernels.
pub const WG: u32 = 64;

/// What a compaction of `n` flags binds and dispatches.
#[derive(Clone, Copy, Debug, PartialEq, Eq, Structural)]
pub struct CompactPlan {
    /// Size of the scanned buffer: one word per flag plus the total.
    pub scanned_bytes: u64,
    /// Workgroups of the flag pass (over `n + 1` words).
    pub flag_workgroups: u32,
    /// Workgroups of the scatter pass (over `n` flags).
    pub scatter_workgroups: u32,
    /// Where the kept count lies in the scanned buffer.
    pub count_offset: u64,
}

/// Plans the compaction of `n` flags; `None` means nothing is kept.
pub fn compact_plan(n: u32) -> (r: Option<CompactPlan>)
    ensures
        n == 0 ==> r is None,
        n > 0 ==> r == Some(
            CompactPlan {
                scanned_bytes: ((n + 1) * 4) as u64,
                flag_workgroups: ceil_div(n + 1, WG as int) as u32,
                scatter_workgroups: ceil_div(n as int, WG as int) as u32,
                count_offset: (n * 4) as u64,
            },
        ),
{
    if n == 0 {
        return None;
    }
    let words = n as u64 + 1;
    let flag = div_ceil_u64(words, WG as u64);
    let scatter = div_ceil_u64(n as u64, WG as u64);
    Some(
        CompactPlan {
            scanned_bytes: words * 4,
            flag_workgroups: flag as u32,
            scatter_workgroups: scatter as u32,
            count_offset: n as u64 * 4,
        },
    )
}

/// The kept count, from the four bytes read back at `count_offset`.
pub fn compact_count(bytes: &[u8]) -> (r: u32)
    requires
        bytes@.len() >= 4,
    ensures
        r == u32_from_le(bytes@[0], bytes@[1], bytes@[2], bytes@[3]),
{
    u32_from_le_bytes(bytes)
}

} // verus!
