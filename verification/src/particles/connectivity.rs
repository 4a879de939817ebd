//! GPU-generated connectivity for drawing particles as connected primitives.
use crate::arith::{ceil_div, div_ceil_u32};
use crate::error::{InvalidArgument, ProcessingError, Result};
use crate::geometry::Topology;
use vstd::prelude::*;

verus! {

/// Threads per workgroup of the connectivity kernel.
pub const WORKGROUP_SIZE: u32 = 64;

/// `DrawIndexedIndirectArgs` is five `u32`s.
pub const INDIRECT_ARGS_BYTES: u64 = 20;

/// Kernel mode: a polyline through consecutive particles.
pub const MODE_LINE_CHAIN: u32 = 0;

/// The number of indices and the kernel mode that `topology` needs for
/// `count` particles: a polyline of `count - 1` segments for line lists,
/// nothing else is supported yet.
pub fn plan(topology: Topology, count: u32) -> (r: Result<(u32, u32)>)
    requires
        topology == Topology::LineList && count >= 2 ==> (count - 1) * 2 <= u32::MAX,
    ensures
        topology != Topology::LineList ==> r == Err::<(u32, u32), ProcessingError>(
            ProcessingError::InvalidArgument(InvalidArgument::UnsupportedTopology),
        ),
        topology == Topology::LineList && count < 2 ==> r == Err::<(u32, u32), ProcessingError>(
            ProcessingError::InvalidArgument(InvalidArgument::TooFewParticles),
        ),
        topology == Topology::LineList && count >= 2 ==> r == Ok::<(u32, u32), ProcessingError>(
            (((count - 1) * 2) as u32, MODE_LINE_CHAIN),
        ),
{
    match topology {
        Topology::LineList => {
            if count < 2 {
                return Err(ProcessingError::InvalidArgument(InvalidArgument::TooFewParticles));
            }
            Ok(((count - 1) * 2, MODE_LINE_CHAIN))
        },
        _ => Err(ProcessingError::InvalidArgument(InvalidArgument::UnsupportedTopology)),
    }
}

/// What building connectivity for `count` particles allocates and dispatches.
#[derive(Clone, Copy, Debug, PartialEq, Eq, Structural)]
pub struct ConnectivityBuild {
    pub index_buffer_bytes: u64,
    pub indirect_buffer_bytes: u64,
    pub mode: u32,
    pub workgroups: u32,
}

/// Plans building the connectivity of `count` particles drawn as `topology`.
pub fn connectivity_build(topology: Topology, count: u32) -> (r: Result<ConnectivityBuild>)
    requires
        topology == Topology::LineList && count >= 2 ==> (count - 1) * 2 <= u32::MAX,
    ensures
        topology != Topology::LineList ==> r == Err::<ConnectivityBuild, ProcessingError>(
            ProcessingError::InvalidArgument(InvalidArgument::UnsupportedTopology),
        ),
        topology == Topology::LineList && count < 2 ==> r == Err::<ConnectivityBuild, ProcessingError>(
            ProcessingError::InvalidArgument(InvalidArgument::TooFewParticles),
        ),
        topology == Topology::LineList && count >= 2 ==> r == Ok::<ConnectivityBuild, ProcessingError>(
            ConnectivityBuild {
                index_buffer_bytes: ((count - 1) * 2 * 4) as u64,
                indirect_buffer_bytes: INDIRECT_ARGS_BYTES,
                mode: MODE_LINE_CHAIN,
                workgroups: ceil_div(count as int, WORKGROUP_SIZE as int) as u32,
            },
        ),
{
    let (index_count, mode) = match plan(topology, count) {
        Ok(p) => p,
        Err(e) => return Err(e),
    };
    Ok(
        ConnectivityBuild {
            index_buffer_bytes: index_count as u64 * 4,
            indirect_buffer_bytes: INDIRECT_ARGS_BYTES,
            mode,
            workgroups: div_ceil_u32(count, WORKGROUP_SIZE),
        },
    )
}

} // verus!
