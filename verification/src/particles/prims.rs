//! Primitive targets: particle fields whose vertices kernels add as whole
//! points, lines or triangles, drawn with a non-indexed indirect draw.
use crate::error::{InvalidArgument, ProcessingError, Result};
use crate::geometry::Topology;
use vstd::prelude::*;

verus! {

/// Words in the arguments buffer: four `DrawIndirect` words, then
/// statistics and configuration.
pub const ARGS_WORDS: usize = 8;

/// Byte offset of the "attempted primitives" statistic.
pub const ARGS_ATTEMPTED_OFFSET: u64 = 16;

/// Vertices per primitive of `topology`, if it is one without shared vertices.
pub open spec fn verts_per_prim_of(topology: Topology) -> Option<u32> {
    match topology {
        Topology::PointList => Some(1),
        Topology::LineList => Some(2),
        Topology::TriangleList => Some(3),
        _ => None,
    }
}

/// Only list topologies make primitives of their own: a point list takes one
/// vertex per primitive, a line list two and a triangle list three; strips
/// share vertices and make none.
pub proof fn lemma_vertices_per_primitive(topology: Topology)
    ensures
        topology == Topology::PointList ==> verts_per_prim_of(topology) == Some(1u32),
        topology == Topology::LineList ==> verts_per_prim_of(topology) == Some(2u32),
        topology == Topology::TriangleList ==> verts_per_prim_of(topology) == Some(3u32),
        (topology != Topology::PointList && topology != Topology::LineList && topology
            != Topology::TriangleList) ==> verts_per_prim_of(topology) is None,
{
}

/// Vertices per primitive; strips are refused (they share vertices).
pub fn verts_per_prim(topology: Topology) -> (r: Result<u32>)
    ensures
        match verts_per_prim_of(topology) {
            Some(v) => r == Ok::<u32, ProcessingError>(v),
            None => r == Err::<u32, ProcessingError>(
                ProcessingError::InvalidArgument(InvalidArgument::UnsupportedTopology),
            ),
        },
{
    match topology {
        Topology::PointList => Ok(1),
        Topology::LineList => Ok(2),
        Topology::TriangleList => Ok(3),
        _ => Err(ProcessingError::InvalidArgument(InvalidArgument::UnsupportedTopology)),
    }
}

/// The layout of a new primitives target.
pub struct PrimitivesLayout {
    pub verts_per_prim: u32,
    /// Vertex slots of the internal particle field.
    pub capacity_verts: u32,
    /// Initial contents of the arguments buffer: `vertex_count = 0`,
    /// `instance_count = 1`, `first_vertex = 0`, `first_instance = 0`, no
    /// attempted primitives, then the vertex capacity and vertices per
    /// primitive, then a zero word.
    pub initial_args: Vec<u32>,
}

/// Plans a primitives target of `capacity_prims` primitives of `topology`.
pub fn primitives_layout(topology: Topology, capacity_prims: u32) -> (r: Result<PrimitivesLayout>)
    ensures
        verts_per_prim_of(topology) is None ==> (r matches Err(e) && e == ProcessingError::InvalidArgument(
            InvalidArgument::UnsupportedTopology,
        )),
        verts_per_prim_of(topology) matches Some(v) ==> {
            &&& capacity_prims as int * v as int > u32::MAX ==> (r matches Err(e) && e
                == ProcessingError::InvalidArgument(InvalidArgument::CapacityOverflow))
            &&& capacity_prims as int * v as int <= u32::MAX ==> (r matches Ok(l) && l.verts_per_prim == v
                && l.capacity_verts == capacity_prims as int * v as int && l.initial_args@ == seq![
                0u32,
                1,
                0,
                0,
                0,
                (capacity_prims as int * v as int) as u32,
                v,
                0,
            ])
        },
{
    let vpp = match verts_per_prim(topology) {
        Ok(v) => v,
        Err(e) => return Err(e),
    };
    let capacity_verts = match capacity_prims.checked_mul(vpp) {
        Some(c) => c,
        None => return Err(ProcessingError::InvalidArgument(InvalidArgument::CapacityOverflow)),
    };
    let initial_args = vec![0u32, 1, 0, 0, 0, capacity_verts, vpp, 0];
    Ok(PrimitivesLayout { verts_per_prim: vpp, capacity_verts, initial_args })
}

/// The words written at offset `0` on the first apply after a draw: the draw
/// count and the attempted count restart from zero, the instance count stays
/// one, and the configuration tail is left alone.
pub fn args_reset_words() -> (r: Vec<u32>)
    ensures
        r@ == seq![0u32, 1, 0, 0, 0],
{
    vec![0u32, 1, 0, 0, 0]
}

} // verus!
