//! Multi-level GPU reduction (sum / min / max) of an `f32` buffer, planned on
//! the CPU: each pass folds blocks of `BLOCK` values into one, until a single
//! workgroup is left.
use crate::arith::{ceil_div, div_ceil_u32};
use vstd::prelude::*;

verus! {

/// Values folded per workgroup.
pub const BLOCK: u32 = 256;

pub const REDUCE_OP_SUM: u32 = 0;

pub const REDUCE_OP_MIN: u32 = 1;

pub const REDUCE_OP_MAX: u32 = 2;

/// The result of reducing no values.
#[derive(Clone, Copy, Debug, PartialEq, Eq, Structural)]
pub enum EmptyReduction {
    /// `0.0` (a sum, or an unknown operation).
    Zero,
    /// `+inf` (a minimum).
    PositiveInfinity,
    /// `-inf` (a maximum).
    NegativeInfinity,
}

/// One reduction pass: fold `count` values with `workgroups` workgroups.
#[derive(Clone, Copy, Debug, PartialEq, Eq, Structural)]
pub struct ReducePass {
    pub count: u32,
    pub workgroups: u32,
}

/// What a reduction does.
pub enum ReducePlan {
    /// Nothing to reduce: the result is the operation's identity.
    Empty(EmptyReduction),
    /// Run these passes in order; pass `i + 1` reads what pass `i` wrote, and
    /// the last one writes the single result.
    Passes(Vec<ReducePass>),
}

/// The passes of a reduction of `n` values, `n >= 1`.
pub open spec fn passes_ok(passes: Seq<ReducePass>, n: u32) -> bool {
    &&& passes.len() >= 1
    &&& passes[0].count == n
    &&& forall|i: int|
        0 <= i < passes.len() ==> (#[trigger] passes[i]).workgroups == ceil_div(
            passes[i].count as int,
            BLOCK as int,
        )
    &&& forall|i: int| 0 <= i < passes.len() - 1 ==> #[trigger] passes[i + 1].count == passes[i].workgroups
    &&& forall|i: int| 0 <= i < passes.len() - 1 ==> (#[trigger] passes[i]).workgroups > 1
    &&& passes.last().workgroups == 1
}

/// Plans the reduction of `n` values with operation `op`.
pub fn reduce_plan(n: u32, op: u32) -> (r: ReducePlan)
    ensures
        n == 0 ==> r == ReducePlan::Empty(
            if op == REDUCE_OP_MIN {
                EmptyReduction::PositiveInfinity
            } else if op == REDUCE_OP_MAX {
                EmptyReduction::NegativeInfinity
            } else {
                EmptyReduction::Zero
            },
        ),
        n > 0 ==> (r matches ReducePlan::Passes(p) && passes_ok(p@, n)),
{
    if n == 0 {
        return ReducePlan::Empty(
            if op == REDUCE_OP_MIN {
                EmptyReduction::PositiveInfinity
            } else if op == REDUCE_OP_MAX {
                EmptyReduction::NegativeInfinity
            } else {
                EmptyReduction::Zero
            },
        );
    }
    let mut passes: Vec<ReducePass> = Vec::new();
    let mut cur_n = n;
    loop
        invariant_except_break
            cur_n >= 1,
            passes@.len() == 0 ==> cur_n == n,
            passes@.len() > 0 ==> passes@[0].count == n,
            passes@.len() > 0 ==> passes@.last().workgroups == cur_n,
            forall|i: int|
                0 <= i < passes@.len() ==> (#[trigger] passes@[i]).workgroups == ceil_div(
                    passes@[i].count as int,
                    BLOCK as int,
                ),
            forall|i: int|
                0 <= i < passes@.len() - 1 ==> #[trigger] passes@[i + 1].count
                    == passes@[i].workgroups,
            forall|i: int| 0 <= i < passes@.len() ==> (#[trigger] passes@[i]).workgroups > 1,
        ensures
            passes_ok(passes@, n),
        decreases cur_n,
    {
        let num_wg = div_ceil_u32(cur_n, BLOCK);
        let ghost prev = passes@;
        passes.push(ReducePass { count: cur_n, workgroups: num_wg });
        proof {
            assert forall|i: int| 0 <= i < passes@.len() - 1 implies #[trigger] passes@[i + 1].count
                == passes@[i].workgroups by {
                if i == prev.len() - 1 {
                    assert(passes@[i] == prev.last());
                }
            }
        }
        if num_wg == 1 {
            break;
        }
        proof {
            assert(ceil_div(cur_n as int, 256) < cur_n) by (nonlinear_arith)
                requires cur_n > 1;
        }
        cur_n = num_wg;
    }
    ReducePlan::Passes(passes)
}

} // verus!
