//! Argument checks and pipeline choice of the attribute-algebra verbs
//! (component-wise operations over flat `f32` buffers).
//!
//! A verb that writes `dst` runs in place when `dst` is its first operand and
//! out of place otherwise. A buffer bound read-write must not also be bound as
//! a read-only operand: the GPU refuses such aliasing, so it is rejected here.
use crate::arith::{ceil_div, div_ceil_u32};
use crate::entity::EntityId;
use crate::error::{InvalidArgument, ProcessingError, Result};
use vstd::prelude::*;

verus! {

/// Threads per workgroup of the verbs.
pub const WG: u32 = 64;

pub const MAP_AFFINE: u32 = 0;

pub const MAP_ABS: u32 = 1;

pub const MAP_NEGATE: u32 = 2;

pub const MAP_CLAMP: u32 = 3;

pub const MAP_FLOOR: u32 = 4;

pub const MAP_SQUARE: u32 = 5;

pub const MAP_SQRT: u32 = 6;

pub const MAP_GREATER: u32 = 7;

pub const MAP_LESS: u32 = 8;

pub const MAP_GEQ: u32 = 9;

pub const MAP_LEQ: u32 = 10;

pub const MAP_EQ: u32 = 11;

pub const MAP_NEQ: u32 = 12;

pub const REDUCE_LENGTH: u32 = 0;

pub const REDUCE_SUM: u32 = 1;

pub const REDUCE_MIN: u32 = 2;

pub const REDUCE_MAX: u32 = 3;

pub const REDUCE_SUMSQ: u32 = 4;

pub const REDUCE_MEAN: u32 = 5;

pub const GEN_UNIFORM: u32 = 0;

pub const GEN_SIGNED: u32 = 1;

pub const GEN_GAUSSIAN: u32 = 2;

/// Refuses a component count outside `1..=4`.
pub fn check_components(components: u32) -> (r: Result<()>)
    ensures
        1 <= components <= 4 ==> r == Ok::<(), ProcessingError>(()),
        !(1 <= components <= 4) ==> r == Err::<(), ProcessingError>(
            ProcessingError::InvalidArgument(InvalidArgument::ComponentsOutOfRange(components)),
        ),
{
    if components == 0 || components > 4 {
        return Err(
            ProcessingError::InvalidArgument(InvalidArgument::ComponentsOutOfRange(components)),
        );
    }
    Ok(())
}

/// Refuses a read-write buffer `rw` that is also among the read-only operands.
pub fn ensure_no_alias(rw: EntityId, reads: &[EntityId]) -> (r: Result<()>)
    ensures
        reads@.contains(rw) ==> r == Err::<(), ProcessingError>(
            ProcessingError::InvalidArgument(InvalidArgument::DstAliasesOperand),
        ),
        !reads@.contains(rw) ==> r == Ok::<(), ProcessingError>(()),
{
    let mut i: usize = 0;
    while i < reads.len()
        invariant
            0 <= i <= reads@.len(),
            forall|k: int| 0 <= k < i ==> reads@[k] != rw,
        decreases reads@.len() - i,
    {
        if reads[i] == rw {
            assert(reads@[i as int] == rw);
            return Err(ProcessingError::InvalidArgument(InvalidArgument::DstAliasesOperand));
        }
        i = i + 1;
    }
    Ok(())
}

/// Which pipeline of a verb runs.
#[derive(Clone, Copy, Debug, PartialEq, Eq, Structural)]
pub enum Variant {
    /// `dst` is the first operand, bound once read-write.
    InPlace,
    /// `dst` is a separate buffer.
    OutOfPlace,
}

/// The pipeline of a verb writing `dst` from first operand `a` and further
/// operands `rest`: in place when `dst == a` (then `a` must not be among
/// `rest`), otherwise out of place (then `dst` must be none of `a` and `rest`).
pub fn select_variant(dst: EntityId, a: EntityId, rest: &[EntityId]) -> (r: Result<Variant>)
    ensures
        dst == a && rest@.contains(a) ==> r == Err::<Variant, ProcessingError>(
            ProcessingError::InvalidArgument(InvalidArgument::DstAliasesOperand),
        ),
        dst == a && !rest@.contains(a) ==> r == Ok::<Variant, ProcessingError>(Variant::InPlace),
        dst != a && rest@.contains(dst) ==> r == Err::<Variant, ProcessingError>(
            ProcessingError::InvalidArgument(InvalidArgument::DstAliasesOperand),
        ),
        dst != a && !rest@.contains(dst) ==> r == Ok::<Variant, ProcessingError>(Variant::OutOfPlace),
{
    if dst == a {
        match ensure_no_alias(a, rest) {
            Ok(()) => Ok(Variant::InPlace),
            Err(e) => Err(e),
        }
    } else {
        match ensure_no_alias(dst, rest) {
            Ok(()) => Ok(Variant::OutOfPlace),
            Err(e) => Err(e),
        }
    }
}

/// Workgroups for one thread per particle over `floats` floats of
/// `components` components each.
pub fn particle_workgroups(floats: u64, components: u32) -> (r: u32)
    requires
        components >= 1,
        floats as int / (components as int) <= u32::MAX,
    ensures
        r == ceil_div(floats as int / components as int, WG as int),
{
    let n = (floats / components as u64) as u32;
    div_ceil_u32(n, WG)
}

/// Refuses a lookup input that is neither one nor two components wide.
pub fn check_lookup_components(in_components: u32) -> (r: Result<()>)
    ensures
        (in_components == 1 || in_components == 2) ==> r == Ok::<(), ProcessingError>(()),
        !(in_components == 1 || in_components == 2) ==> r == Err::<(), ProcessingError>(
            ProcessingError::InvalidArgument(InvalidArgument::LookupComponents(in_components)),
        ),
{
    if in_components != 1 && in_components != 2 {
        return Err(
            ProcessingError::InvalidArgument(InvalidArgument::LookupComponents(in_components)),
        );
    }
    Ok(())
}

/// The checks of `extract`: components in `1..=4`, then `index` below it.
pub fn check_extract(components: u32, index: u32) -> (r: Result<()>)
    ensures
        !(1 <= components <= 4) ==> r == Err::<(), ProcessingError>(
            ProcessingError::InvalidArgument(InvalidArgument::ComponentsOutOfRange(components)),
        ),
        1 <= components <= 4 && index >= components ==> r == Err::<(), ProcessingError>(
            ProcessingError::InvalidArgument(
                InvalidArgument::ComponentIndexOutOfRange { index, components },
            ),
        ),
        1 <= components <= 4 && index < components ==> r == Ok::<(), ProcessingError>(()),
{
    match check_components(components) {
        Ok(()) => {},
        Err(e) => return Err(e),
    }
    if index >= components {
        return Err(
            ProcessingError::InvalidArgument(
                InvalidArgument::ComponentIndexOutOfRange { index, components },
            ),
        );
    }
    Ok(())
}

/// The checks of `pack`: two to four sources, none of them `dst`. Gives the
/// output component count, which also picks the pipeline.
pub fn check_pack(dst: EntityId, sources: &[EntityId]) -> (r: Result<u32>)
    ensures
        !(2 <= sources@.len() <= 4) ==> r == Err::<u32, ProcessingError>(
            ProcessingError::InvalidArgument(
                InvalidArgument::ComponentsOutOfRange(sources@.len() as u32),
            ),
        ),
        2 <= sources@.len() <= 4 && sources@.contains(dst) ==> r == Err::<u32, ProcessingError>(
            ProcessingError::InvalidArgument(InvalidArgument::DstAliasesOperand),
        ),
        2 <= sources@.len() <= 4 && !sources@.contains(dst) ==> r == Ok::<u32, ProcessingError>(
            sources@.len() as u32,
        ),
{
    let n = sources.len();
    if n < 2 || n > 4 {
        return Err(
            ProcessingError::InvalidArgument(InvalidArgument::ComponentsOutOfRange(n as u32)),
        );
    }
    match ensure_no_alias(dst, sources) {
        Ok(()) => Ok(n as u32),
        Err(e) => Err(e),
    }
}

/// Refuses an in-place neighbour gather: `out` must differ from both the
/// source and the positions.
pub fn check_gather_target(out: EntityId, source: EntityId, position: EntityId) -> (r: Result<()>)
    ensures
        (out == source || out == position) ==> r == Err::<(), ProcessingError>(
            ProcessingError::InvalidArgument(InvalidArgument::GatherOutAliases),
        ),
        !(out == source || out == position) ==> r == Ok::<(), ProcessingError>(()),
{
    if out == source || out == position {
        return Err(ProcessingError::InvalidArgument(InvalidArgument::GatherOutAliases));
    }
    Ok(())
}

} // verus!
