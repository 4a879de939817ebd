//! Ring-buffer emission of particles.
//!
//! A particle system of `capacity` slots keeps a write cursor (`head`).
//! Emitting `n` particles writes them at slots `head, head + 1, ...`, wrapping
//! at `capacity`, and moves the cursor past them.
use crate::arith::{ceil_div, div_ceil_u32};
use crate::error::{InvalidArgument, ProcessingError, Result};
use vstd::prelude::*;

verus! {

/// Threads per workgroup of the emission kernels.
pub const WORKGROUP_SIZE: u32 = 64;

/// The slot that the `i`-th emitted particle lands in.
pub open spec fn ring_slot(head: int, i: int, capacity: int) -> int {
    (head + i) % capacity
}

/// One contiguous copy: source bytes `src_start..src_end` go to the buffer
/// from byte `dst_offset` on.
#[derive(Debug, Clone, Copy, PartialEq, Eq, Structural)]
pub struct RingWrite {
    pub dst_offset: u64,
    pub src_start: usize,
    pub src_end: usize,
}

/// Whether source byte `src` is copied by `w`, and to where.
pub open spec fn copies_to(w: RingWrite, src: int, dst: int) -> bool {
    &&& w.src_start <= src < w.src_end
    &&& dst == w.dst_offset + (src - w.src_start)
}

/// Byte `j` of the `i`-th emitted particle is copied, by one of the two
/// copies, to byte `j` of its ring slot.
pub open spec fn byte_lands_in_slot(
    first: RingWrite,
    second: Option<RingWrite>,
    head: int,
    capacity: int,
    byte_size: int,
    i: int,
    j: int,
) -> bool {
    let src = i * byte_size + j;
    let dst = ring_slot(head, i, capacity) * byte_size + j;
    copies_to(first, src, dst) || (second matches Some(w) && copies_to(w, src, dst))
}

/// Whether an emit of `n` particles may go ahead: `Ok(false)` when there is
/// nothing to emit, an error when `n` exceeds the capacity.
pub fn check_emit_count(n: u32, capacity: u32) -> (r: Result<bool>)
    ensures
        n == 0 ==> r == Ok::<bool, ProcessingError>(false),
        n > 0 && n > capacity ==> r == Err::<bool, ProcessingError>(
            ProcessingError::InvalidArgument(
                InvalidArgument::EmitExceedsCapacity { emitted: n, capacity },
            ),
        ),
        n > 0 && n <= capacity ==> r == Ok::<bool, ProcessingError>(true),
{
    if n == 0 {
        return Ok(false);
    }
    if n > capacity {
        return Err(
            ProcessingError::InvalidArgument(
                InvalidArgument::EmitExceedsCapacity { emitted: n, capacity },
            ),
        );
    }
    Ok(true)
}

/// The copies that write the bytes of `n` emitted particles (`byte_size`
/// bytes each, `bytes_len` in all) into an attribute buffer with the cursor
/// at `head`: one copy up to the end of the buffer, and a second from its
/// start when the batch wraps around.
pub fn emit_attribute_writes(capacity: u32, head: u32, n: u32, byte_size: u32, bytes_len: usize) -> (r: Result<(RingWrite, Option<RingWrite>)>)
    requires
        0 < n <= capacity,
        head < capacity,
    ensures
        bytes_len != n as int * byte_size as int ==> r == Err::<(RingWrite, Option<RingWrite>), ProcessingError>(
            ProcessingError::InvalidArgument(
                InvalidArgument::EmitByteCount {
                    expected: (n as int * byte_size as int) as u64,
                    got: bytes_len as u64,
                },
            ),
        ),
        bytes_len == n as int * byte_size as int ==> match r {
            Ok((first, second)) => {
                &&& first.src_start == 0
                &&& first.dst_offset == head as int * byte_size as int
                &&& (second is Some <==> capacity - head < n)
                &&& first.src_end == (if capacity - head < n { capacity - head } else { n as int }) * byte_size as int
                &&& second matches Some(w) ==> w.dst_offset == 0 && w.src_start == first.src_end && w.src_end == bytes_len
                &&& second is None ==> first.src_end == bytes_len
                // every byte of every particle lands in its ring slot
                &&& forall|i: int, j: int|
                    0 <= i < n && 0 <= j < byte_size ==> #[trigger] byte_lands_in_slot(
                        first,
                        second,
                        head as int,
                        capacity as int,
                        byte_size as int,
                        i,
                        j,
                    )
                // and no copy reaches past the buffer
                &&& first.dst_offset + (first.src_end - first.src_start) <= capacity as int * byte_size as int
                &&& second matches Some(w) ==> w.dst_offset + (w.src_end - w.src_start) <= capacity as int * byte_size as int
            },
            Err(_) => false,
        },
{
    proof {
        assert(n as int * byte_size as int <= 0xffff_ffff * 0xffff_ffff) by (nonlinear_arith)
            requires n <= 0xffff_ffff, byte_size <= 0xffff_ffff;
        assert(head as int * byte_size as int <= 0xffff_ffff * 0xffff_ffff) by (nonlinear_arith)
            requires head <= 0xffff_ffff, byte_size <= 0xffff_ffff;
    }
    let expected: u64 = n as u64 * byte_size as u64;
    if bytes_len as u64 != expected {
        return Err(
            ProcessingError::InvalidArgument(
                InvalidArgument::EmitByteCount { expected, got: bytes_len as u64 },
            ),
        );
    }
    let room = capacity - head;
    let first_chunk_n = if room < n { room } else { n };
    proof {
        assert(first_chunk_n as int * byte_size as int <= n as int * byte_size as int) by (nonlinear_arith)
            requires first_chunk_n <= n;
    }
    let split: usize = (first_chunk_n as u64 * byte_size as u64) as usize;
    let first_offset: u64 = head as u64 * byte_size as u64;
    let first = RingWrite { dst_offset: first_offset, src_start: 0, src_end: split };
    let second = if first_chunk_n < n {
        Some(RingWrite { dst_offset: 0, src_start: split, src_end: bytes_len })
    } else {
        None
    };
    proof {
        let cap = capacity as int;
        let h = head as int;
        let k = first_chunk_n as int;
        let bs = byte_size as int;
        assert((h + k) * bs <= cap * bs) by (nonlinear_arith)
            requires h + k <= cap, bs >= 0;
        assert(h * bs + k * bs == (h + k) * bs) by (nonlinear_arith);
        if k < n {
            assert((n - k) * bs <= cap * bs) by (nonlinear_arith)
                requires n - k <= cap, bs >= 0;
            assert(n * bs - k * bs == (n - k) * bs) by (nonlinear_arith);
        }
        assert forall|i: int, j: int| 0 <= i < n && 0 <= j < bs implies #[trigger] byte_lands_in_slot(
            first,
            second,
            h,
            cap,
            bs,
            i,
            j,
        ) by {
            if i < k {
                assert(i * bs + j < k * bs) by (nonlinear_arith)
                    requires i < k, 0 <= j < bs;
                assert(0 <= i * bs + j) by (nonlinear_arith)
                    requires 0 <= i, 0 <= j, bs >= 0;
                vstd::arithmetic::div_mod::lemma_small_mod((h + i) as nat, cap as nat);
                assert((h + i) * bs + j == h * bs + (i * bs + j)) by (nonlinear_arith);
            } else {
                assert(k * bs <= i * bs + j) by (nonlinear_arith)
                    requires k <= i, 0 <= j, bs >= 0;
                assert(i * bs + j < n * bs) by (nonlinear_arith)
                    requires i < n, 0 <= j < bs;
                assert(k == cap - h);
                assert((h + i) % cap == i - k) by {
                    assert(cap <= h + i < 2 * cap);
                    vstd::arithmetic::div_mod::lemma_mod_sub_multiples_vanish(h + i, cap);
                    assert(0 <= h + i - cap < cap);
                    vstd::arithmetic::div_mod::lemma_small_mod((h + i - cap) as nat, cap as nat);
                }
                assert((i - k) * bs + j == (i * bs + j) - k * bs) by (nonlinear_arith);
            }
        }
    }
    Ok((first, second))
}

/// The cursor after emitting `n` particles at `head`.
pub fn advance_emit_head(head: u32, n: u32, capacity: u32) -> (r: u32)
    requires
        capacity > 0,
        head < capacity,
        n <= capacity,
    ensures
        r == (head + n) % (capacity as int),
        r < capacity,
{
    ((head as u64 + n as u64) % capacity as u64) as u32
}

/// What a GPU emission binds and dispatches.
#[derive(Debug, Clone, Copy, PartialEq, Eq, Structural)]
pub struct GpuEmit {
    /// `emit_base`: the first slot written.
    pub base: u32,
    /// `emit_count`: how many particles the kernel emits.
    pub count: u32,
    /// `emit_capacity`: the ring size.
    pub capacity: u32,
    /// Workgroups to dispatch.
    pub workgroups: u32,
    /// The cursor once the kernel has run.
    pub next_head: u32,
}

/// Plans a GPU emission of `count` particles: `Ok(None)` when there is
/// nothing to emit, an error when `count` exceeds the capacity.
pub fn plan_gpu_emit(capacity: u32, head: u32, count: u32) -> (r: Result<Option<GpuEmit>>)
    requires
        capacity > 0 ==> head < capacity,
    ensures
        count == 0 ==> r == Ok::<Option<GpuEmit>, ProcessingError>(None),
        count > 0 && count > capacity ==> r == Err::<Option<GpuEmit>, ProcessingError>(
            ProcessingError::InvalidArgument(
                InvalidArgument::EmitExceedsCapacity { emitted: count, capacity },
            ),
        ),
        count > 0 && count <= capacity ==> r == Ok::<Option<GpuEmit>, ProcessingError>(
            Some(
                GpuEmit {
                    base: head,
                    count,
                    capacity,
                    workgroups: ceil_div(count as int, WORKGROUP_SIZE as int) as u32,
                    next_head: ((head + count) % (capacity as int)) as u32,
                },
            ),
        ),
{
    let go = check_emit_count(count, capacity);
    match go {
        Err(e) => Err(e),
        Ok(false) => Ok(None),
        Ok(true) => {
            let workgroups = div_ceil_u32(count, WORKGROUP_SIZE);
            let next_head = advance_emit_head(head, count, capacity);
            Ok(Some(GpuEmit { base: head, count, capacity, workgroups, next_head }))
        },
    }
}

} // verus!
