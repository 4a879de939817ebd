//! Multi-level prefix sum over a `u32` buffer, planned on the CPU.
//!
//! Level 0 is the data. Each block kernel pass scans blocks of `BLOCK`
//! elements of one level in place and writes each block's total into the next
//! level. Levels shrink until one block covers a level; the add passes then
//! walk back down, adding each block's scanned offset into the level below.
use crate::arith::{ceil_div, div_ceil_u64};
use crate::entity::EntityId;
use vstd::prelude::*;

verus! {

/// Elements per block of the scan kernels.
pub const BLOCK: u64 = 256;

/// The element count of the level above one of `n` elements.
pub open spec fn next_level(n: int) -> int {
    if ceil_div(n, BLOCK as int) < 1 {
        1
    } else {
        ceil_div(n, BLOCK as int)
    }
}

/// Which scan kernel a pass runs.
#[derive(Clone, Copy, Debug, PartialEq, Eq, Structural)]
pub enum ScanKernel {
    /// Scans level `level` block-wise; block totals go to level `level + 1`.
    Block,
    /// Adds level `level + 1`'s scanned totals into level `level`.
    Add,
}

/// One dispatch of a scan.
#[derive(Clone, Copy, Debug, PartialEq, Eq, Structural)]
pub struct ScanPass {
    pub kernel: ScanKernel,
    /// The level bound as `data`; `level + 1` is bound as `block_sums`.
    pub level: usize,
    pub workgroups: u64,
}

/// The element counts of the levels of a scan over `total_bytes` bytes: the
/// first is the data, each next one its block count, the last is `1`.
pub open spec fn levels_ok(levels: Seq<u64>, total_bytes: u64) -> bool {
    &&& levels.len() >= 2
    &&& levels[0] == (if total_bytes / 4 < 1 { 1 } else { total_bytes / 4 })
    &&& forall|i: int| 0 <= i < levels.len() - 1 ==> levels[i + 1] == next_level(levels[i] as int)
    &&& levels.last() == 1
    &&& forall|i: int| 1 <= i < levels.len() - 1 ==> levels[i] > 1
}

/// The passes of a scan with level counts `levels`: a block pass per level
/// below the top, then add passes from the third-highest level down to `0`.
pub open spec fn passes_ok(passes: Seq<ScanPass>, levels: Seq<u64>) -> bool {
    let up = (levels.len() - 1) as int;
    let down = if levels.len() >= 2 { (levels.len() - 2) as int } else { 0 };
    &&& passes.len() == up + down
    &&& forall|i: int|
        0 <= i < up ==> #[trigger] passes[i] == (ScanPass {
            kernel: ScanKernel::Block,
            level: i as usize,
            workgroups: levels[i + 1],
        })
    &&& forall|t: int|
        0 <= t < down ==> #[trigger] passes[up + t] == (ScanPass {
            kernel: ScanKernel::Add,
            level: (down - 1 - t) as usize,
            workgroups: levels[down - t],
        })
}

/// The levels and passes of an in-place prefix sum over a buffer of
/// `total_bytes` bytes, or `None` for an empty buffer.
pub fn prefix_sum_plan(total_bytes: u64) -> (r: Option<(Vec<u64>, Vec<ScanPass>)>)
    ensures
        total_bytes == 0 ==> r is None,
        total_bytes > 0 ==> (r matches Some((levels, passes)) && levels_ok(levels@, total_bytes)
            && passes_ok(passes@, levels@)),
{
    if total_bytes == 0 {
        return None;
    }
    let n0 = if total_bytes / 4 < 1 { 1 } else { total_bytes / 4 };
    let mut levels: Vec<u64> = vec![n0];
    let mut passes: Vec<ScanPass> = Vec::new();
    let mut lvl: usize = 0;
    loop
        invariant_except_break
            levels@.len() == lvl + 1,
            passes@.len() == lvl,
            levels@[0] == n0,
            levels@[lvl as int] >= 1,
            lvl >= 1 ==> levels@[lvl as int] > 1,
            forall|i: int| 0 <= i < lvl ==> levels@[i + 1] == next_level(levels@[i] as int),
            forall|i: int| 1 <= i <= lvl ==> levels@[i] > 1,
            forall|i: int|
                0 <= i < lvl ==> #[trigger] passes@[i] == (ScanPass {
                    kernel: ScanKernel::Block,
                    level: i as usize,
                    workgroups: levels@[i + 1],
                }),
        ensures
            levels@.len() == lvl + 2,
            passes@.len() == lvl + 1,
            levels@[0] == n0,
            levels@[lvl + 1] == 1,
            forall|i: int| 0 <= i <= lvl ==> levels@[i + 1] == next_level(levels@[i] as int),
            forall|i: int| 1 <= i <= lvl ==> levels@[i] > 1,
            forall|i: int|
                0 <= i <= lvl ==> #[trigger] passes@[i] == (ScanPass {
                    kernel: ScanKernel::Block,
                    level: i as usize,
                    workgroups: levels@[i + 1],
                }),
        decreases levels@[lvl as int],
    {
        let cur = levels[lvl];
        let c = div_ceil_u64(cur, BLOCK);
        let num_blocks = if c < 1 { 1 } else { c };
        passes.push(ScanPass { kernel: ScanKernel::Block, level: lvl, workgroups: num_blocks });
        levels.push(num_blocks);
        if num_blocks == 1 {
            break;
        }
        proof {
            assert(num_blocks < cur) by {
                assert(cur > 1);
                assert(ceil_div(cur as int, 256) < cur) by (nonlinear_arith)
                    requires cur > 1;
            }
        }
        lvl = levels.len() - 1;
    }
    let up = levels.len() - 1;
    let down = lvl;
    let mut t: usize = 0;
    while t < down
        invariant
            0 <= t <= down,
            up == lvl + 1,
            down == lvl,
            levels@.len() == lvl + 2,
            passes@.len() == up + t,
            forall|i: int|
                0 <= i < up ==> #[trigger] passes@[i] == (ScanPass {
                    kernel: ScanKernel::Block,
                    level: i as usize,
                    workgroups: levels@[i + 1],
                }),
            forall|s: int|
                0 <= s < t ==> #[trigger] passes@[up + s] == (ScanPass {
                    kernel: ScanKernel::Add,
                    level: (down - 1 - s) as usize,
                    workgroups: levels@[down - s],
                }),
        decreases down - t,
    {
        let k = down - 1 - t;
        passes.push(ScanPass { kernel: ScanKernel::Add, level: k, workgroups: levels[k + 1] });
        t = t + 1;
    }
    Some((levels, passes))
}

/// What to do for a cached scratch buffer of one level.
#[derive(Clone, Copy, Debug, PartialEq, Eq, Structural)]
pub enum ScratchAction {
    /// The cached buffer serves.
    Reuse(EntityId),
    /// Create a buffer of the needed size (after destroying `destroy`, if any)
    /// and cache it.
    Create { destroy: Option<EntityId> },
}

/// Whether a cached scratch buffer `cached` (entity and size) serves a need
/// of `bytes`: the scan and reduce caches take any buffer at least that
/// large (`exact == false`); the compaction cache takes only one of exactly
/// that size.
pub fn scratch_action(cached: Option<(EntityId, u64)>, bytes: u64, exact: bool) -> (r: ScratchAction)
    ensures
        match cached {
            Some((e, size)) => if (exact && size == bytes) || (!exact && size >= bytes) {
                r == ScratchAction::Reuse(e)
            } else {
                r == ScratchAction::Create { destroy: Some(e) }
            },
            None => r == ScratchAction::Create { destroy: None },
        },
{
    match cached {
        Some((e, size)) => {
            if (exact && size == bytes) || (!exact && size >= bytes) {
                ScratchAction::Reuse(e)
            } else {
                ScratchAction::Create { destroy: Some(e) }
            }
        },
        None => ScratchAction::Create { destroy: None },
    }
}

} // verus!
