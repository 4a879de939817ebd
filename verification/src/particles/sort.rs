//! Bitonic sort of a `keys` buffer with a `u32` payload moved in lockstep,
//! planned on the CPU as a sequence of compare-exchange passes `(k, j)`.
use crate::arith::{ceil_div, div_ceil_u32};
use crate::error::{InvalidArgument, ProcessingError, Result};
use vstd::prelude::*;

verus! {

/// Threads per workgroup of the compare-exchange kernel.
pub const WG: u32 = 64;

/// `n` is a power of two.
pub open spec fn is_pow2(n: nat) -> bool
    decreases n,
{
    if n == 1 {
        true
    } else if n >= 2 && n % 2 == 0 {
        is_pow2(n / 2)
    } else {
        false
    }
}

/// Whether `n` is a power of two.
pub fn is_power_of_two(n: u32) -> (r: bool)
    ensures
        r == is_pow2(n as nat),
{
    let mut m = n;
    while m > 1 && m % 2 == 0
        invariant
            m >= 1 ==> is_pow2(m as nat) == is_pow2(n as nat),
            m == 0 ==> n == 0,
            m <= n,
        decreases m,
    {
        m = m / 2;
    }
    m == 1
}

/// The passes `(k, j)` for `j = k/2, k/4, ..., 1`.
pub open spec fn inner_passes(k: nat, j: nat) -> Seq<(u32, u32)>
    decreases j,
{
    if j == 0 {
        Seq::empty()
    } else {
        seq![(k as u32, j as u32)] + inner_passes(k, j / 2)
    }
}

/// The passes of every stage from `k` on: `k, 2k, 4k, ...` while at most `n`.
pub open spec fn stage_passes(k: nat, n: nat) -> Seq<(u32, u32)>
    decreases n - k,
{
    if k == 0 || k > n {
        Seq::empty()
    } else {
        inner_passes(k, k / 2) + (if 2 * k <= n {
            stage_passes(2 * k, n)
        } else {
            Seq::empty()
        })
    }
}

/// All compare-exchange passes of a bitonic sort of `n` elements.
pub open spec fn bitonic_passes(n: nat) -> Seq<(u32, u32)> {
    stage_passes(2, n)
}

/// Whether `q` follows `p` in a bitonic pass sequence: the next, halved
/// compare distance of the same stage, or, after distance one, the first
/// pass of the next stage, whose size doubles and whose distance is half of
/// it.
pub open spec fn next_pass(p: (u32, u32), q: (u32, u32)) -> bool {
    (p.1 > 1 && q.0 == p.0 && q.1 == p.1 / 2) || (p.1 == 1 && q.0 == 2 * p.0 && q.1 == p.0)
}

proof fn lemma_inner_shape(k: nat, j: nat)
    requires
        1 <= j <= k <= u32::MAX,
    ensures
        inner_passes(k, j).len() > 0,
        inner_passes(k, j)[0] == (k as u32, j as u32),
        inner_passes(k, j).last() == (k as u32, 1u32),
        forall|i: int| 0 <= i < inner_passes(k, j).len() - 1 ==> (#[trigger] inner_passes(k, j)[i]).1 > 1
            && inner_passes(k, j)[i + 1] == (k as u32, inner_passes(k, j)[i].1 / 2),
    decreases j,
{
    let s = inner_passes(k, j);
    if j / 2 == 0 {
        assert(inner_passes(k, 0) == Seq::<(u32, u32)>::empty());
        assert(s =~= seq![(k as u32, j as u32)]);
    } else {
        lemma_inner_shape(k, j / 2);
        let rest = inner_passes(k, j / 2);
        assert(s == seq![(k as u32, j as u32)] + rest);
        assert forall|i: int| 0 <= i < s.len() - 1 implies (#[trigger] s[i]).1 > 1 && s[i + 1] == (
            k as u32,
            s[i].1 / 2,
        ) by {
            if i > 0 {
                assert(s[i] == rest[i - 1]);
                assert(s[i + 1] == rest[i]);
            }
        }
    }
}

/// Each pass of `s` is followed by its next pass.
pub open spec fn chained(s: Seq<(u32, u32)>) -> bool {
    forall|i: int| 0 <= i < s.len() - 1 ==> next_pass(#[trigger] s[i], s[i + 1])
}

proof fn lemma_chain_concat(a: Seq<(u32, u32)>, b: Seq<(u32, u32)>)
    requires
        a.len() > 0,
        b.len() > 0,
        chained(a),
        chained(b),
        next_pass(a.last(), b[0]),
    ensures
        chained(a + b),
        (a + b)[0] == a[0],
        (a + b).last() == b.last(),
{
    let s = a + b;
    assert forall|i: int| 0 <= i < s.len() - 1 implies next_pass(#[trigger] s[i], s[i + 1]) by {
        if i < a.len() - 1 {
            assert(s[i] == a[i]);
            assert(s[i + 1] == a[i + 1]);
        } else if i == a.len() - 1 {
            assert(s[i] == a.last());
            assert(s[i + 1] == b[0]);
        } else {
            assert(s[i] == b[i - a.len()]);
            assert(s[i + 1] == b[i - a.len() + 1]);
        }
    }
}

proof fn lemma_inner_chained(k: nat)
    requires
        2 <= k <= u32::MAX,
    ensures
        inner_passes(k, k / 2).len() > 0,
        inner_passes(k, k / 2)[0] == (k as u32, (k / 2) as u32),
        inner_passes(k, k / 2).last() == (k as u32, 1u32),
        chained(inner_passes(k, k / 2)),
{
    lemma_inner_shape(k, k / 2);
    let s = inner_passes(k, k / 2);
    assert forall|i: int| 0 <= i < s.len() - 1 implies next_pass(#[trigger] s[i], s[i + 1]) by {
        assert(s[i].1 > 1 && s[i + 1] == (k as u32, s[i].1 / 2));
        assert(s[i].0 == k as u32) by {
            if i > 0 {
                assert(s[i] == (k as u32, s[i - 1].1 / 2));
            }
        }
    }
}

proof fn lemma_stage_shape(k: nat, n: nat)
    requires
        2 <= k <= n <= u32::MAX,
    ensures
        stage_passes(k, n).len() > 0,
        stage_passes(k, n)[0] == (k as u32, (k / 2) as u32),
        stage_passes(k, n).last().1 == 1,
        stage_passes(k, n).last().0 <= n < 2 * stage_passes(k, n).last().0,
        is_pow2(k) ==> is_pow2(stage_passes(k, n).last().0 as nat),
        chained(stage_passes(k, n)),
    decreases n - k,
{
    lemma_stage_unfold(k, n);
    lemma_inner_chained(k);
    let inner = inner_passes(k, k / 2);
    if 2 * k > n {
        assert(stage_passes(k, n) =~= inner);
    } else {
        assert(is_pow2(k) ==> is_pow2(2 * k)) by {
            assert((2 * k) / 2 == k);
        }
        lemma_stage_shape(2 * k, n);
        lemma_chain_concat(inner, stage_passes(2 * k, n));
    }
}

proof fn lemma_pow2_between(a: nat, n: nat)
    requires
        is_pow2(a),
        is_pow2(n),
        a <= n < 2 * a,
    ensures
        a == n,
    decreases a,
{
    if a != 1 {
        assert(a >= 2 && a % 2 == 0 && is_pow2(a / 2));
        assert(n != 1);
        assert(n >= 2 && n % 2 == 0 && is_pow2(n / 2));
        lemma_pow2_between(a / 2, n / 2);
    }
}

/// The passes of a bitonic sort of `n >= 2` keys: the first compares
/// neighbours in blocks of two (`k = 2, j = 1`); each pass halves the
/// compare distance `j` of its stage, and after distance one the next stage
/// doubles the block size `k` and starts at half of it; the last pass has
/// distance one in the largest block that fits in `n`. For `n` a power of
/// two that block is all of `n`, so the final stage merges the whole buffer.
pub proof fn lemma_bitonic_pass_order(n: nat)
    requires
        2 <= n <= u32::MAX,
    ensures
        bitonic_passes(n).len() > 0,
        bitonic_passes(n)[0] == (2u32, 1u32),
        forall|i: int| 0 <= i < bitonic_passes(n).len() - 1 ==> next_pass(
            #[trigger] bitonic_passes(n)[i],
            bitonic_passes(n)[i + 1],
        ),
        bitonic_passes(n).last().1 == 1,
        bitonic_passes(n).last().0 <= n < 2 * bitonic_passes(n).last().0,
        is_pow2(n) ==> bitonic_passes(n).last() == (n as u32, 1u32),
{
    lemma_stage_shape(2, n);
    if is_pow2(n) {
        let last = bitonic_passes(n).last().0 as nat;
        assert(is_pow2(2)) by {
            assert(is_pow2(1));
        }
        lemma_pow2_between(last, n);
    }
}

/// A planned sort: dispatch `workgroups` workgroups once per pass, binding
/// the pass's `k` and `j`.
#[derive(Clone, Debug)]
pub struct BitonicPlan {
    pub workgroups: u32,
    pub passes: Vec<(u32, u32)>,
}

proof fn lemma_stage_unfold(k: nat, n: nat)
    requires
        1 <= k <= n,
    ensures
        stage_passes(k, n) == inner_passes(k, k / 2) + stage_passes(2 * k, n),
{
    if 2 * k > n {
        assert(stage_passes(2 * k, n) == Seq::<(u32, u32)>::empty());
        assert(inner_passes(k, k / 2) + Seq::<(u32, u32)>::empty() =~= inner_passes(k, k / 2));
    }
}

/// Plans a bitonic sort of `n` keys with a payload of `payload_len` words:
/// nothing to do for at most one key, an error unless `n` is a power of two,
/// then an error unless the payload has as many words as there are keys.
pub fn bitonic_sort_plan(n: u32, payload_len: u64) -> (r: Result<Option<BitonicPlan>>)
    ensures
        n <= 1 ==> r matches Ok(None),
        n > 1 && !is_pow2(n as nat) ==> r == Err::<Option<BitonicPlan>, ProcessingError>(
            ProcessingError::InvalidArgument(InvalidArgument::NotPowerOfTwo(n)),
        ),
        n > 1 && is_pow2(n as nat) && payload_len != n ==> r == Err::<Option<BitonicPlan>, ProcessingError>(
            ProcessingError::InvalidArgument(InvalidArgument::LengthMismatch),
        ),
        n > 1 && is_pow2(n as nat) && payload_len == n ==> (r matches Ok(Some(plan))
            && plan.workgroups == ceil_div(n as int, WG as int)
            && plan.passes@ == bitonic_passes(n as nat)),
{
    if n <= 1 {
        return Ok(None);
    }
    if !is_power_of_two(n) {
        return Err(ProcessingError::InvalidArgument(InvalidArgument::NotPowerOfTwo(n)));
    }
    if payload_len != n as u64 {
        return Err(ProcessingError::InvalidArgument(InvalidArgument::LengthMismatch));
    }
    let workgroups = div_ceil_u32(n, WG);
    let mut passes: Vec<(u32, u32)> = Vec::new();
    let mut k: u64 = 2;
    while k <= n as u64
        invariant
            k >= 2,
            k <= 2 * (n as u64) + 2,
            passes@ + stage_passes(k as nat, n as nat) == bitonic_passes(n as nat),
        decreases 2 * (n as int) + 2 - k,
    {
        let mut j: u64 = k / 2;
        let ghost before = passes@;
        proof {
            lemma_stage_unfold(k as nat, n as nat);
        }
        while j >= 1
            invariant
                j <= k / 2,
                k <= n,
                passes@ + inner_passes(k as nat, j as nat) == before + inner_passes(
                    k as nat,
                    (k / 2) as nat,
                ),
            decreases j,
        {
            let ghost prev = passes@;
            passes.push((k as u32, j as u32));
            proof {
                assert(inner_passes(k as nat, j as nat) == seq![(k as u32, j as u32)]
                    + inner_passes(k as nat, (j / 2) as nat));
                assert(passes@ + inner_passes(k as nat, (j / 2) as nat) =~= prev
                    + inner_passes(k as nat, j as nat));
            }
            j = j / 2;
        }
        proof {
            assert(inner_passes(k as nat, 0) == Seq::<(u32, u32)>::empty());
            assert(passes@ =~= before + inner_passes(k as nat, (k / 2) as nat));
            assert(passes@ + stage_passes(2 * k as nat, n as nat) =~= before + stage_passes(k as nat, n as nat));
        }
        k = k * 2;
    }
    proof {
        assert(stage_passes(k as nat, n as nat) == Seq::<(u32, u32)>::empty());
        assert(passes@ =~= passes@ + stage_passes(k as nat, n as nat));
    }
    Ok(Some(BitonicPlan { workgroups, passes }))
}

} // verus!
