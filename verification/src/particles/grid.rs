//! Bounded uniform spatial grid over particle positions, in a CSR layout:
//! `offsets` holds `num_cells + 1` cell starts, `sorted` the particle indices
//! grouped by cell.
use crate::arith::{ceil_div, div_ceil_u64};
use vstd::prelude::*;

verus! {

pub const CLEAR_WG: u64 = 256;

pub const PARTICLE_WG: u64 = 64;

pub const COPY_WG: u64 = 256;

/// The number of cells of a grid with `dims` cells per axis.
pub fn num_cells(dims: [u32; 3]) -> (r: u32)
    requires
        dims[0] as int * dims[1] as int * dims[2] as int <= u32::MAX,
    ensures
        r == dims[0] as int * dims[1] as int * dims[2] as int,
{
    proof {
        assert(dims[0] as int * dims[1] as int <= 0xffff_ffff * 0xffff_ffff) by (nonlinear_arith)
            requires dims[0] <= 0xffff_ffff, dims[1] <= 0xffff_ffff;
    }
    let xy = dims[0] as u64 * dims[1] as u64;
    proof {
        assert(xy as int * dims[2] as int == dims[0] as int * dims[1] as int * dims[2] as int);
        assert(xy as int * dims[2] as int <= 0xffff_ffff_ffff_ffff) by (nonlinear_arith)
            requires xy <= 0xffff_ffff_ffff_ffff, dims[2] <= 0xffff_ffff, xy as int * dims[2] as int <= u32::MAX;
    }
    (xy * dims[2] as u64) as u32
}

/// Byte sizes of a grid's buffers.
#[derive(Clone, Copy, Debug, PartialEq, Eq, Structural)]
pub struct GridBuffers {
    /// `num_cells + 1` cell starts.
    pub offsets_bytes: u64,
    /// `num_cells` write cursors.
    pub cursor_bytes: u64,
    /// One slot per particle (at least one).
    pub sorted_bytes: u64,
}

/// The buffer sizes of a grid of `num_cells` cells over `capacity` particles.
pub fn grid_buffers(num_cells: u32, capacity: u32) -> (r: GridBuffers)
    ensures
        r.offsets_bytes == (num_cells + 1) * 4,
        r.cursor_bytes == num_cells * 4,
        r.sorted_bytes == (if capacity < 1 { 1 } else { capacity as int }) * 4,
{
    let slots: u64 = if capacity < 1 { 1 } else { capacity as u64 };
    GridBuffers {
        offsets_bytes: (num_cells as u64 + 1) * 4,
        cursor_bytes: num_cells as u64 * 4,
        sorted_bytes: slots * 4,
    }
}

/// Workgroup counts of the four dispatches of a grid rebuild (the prefix sum
/// in between is planned on its own).
#[derive(Clone, Copy, Debug, PartialEq, Eq, Structural)]
pub struct GridDispatches {
    /// Clears `num_cells + 1` counters.
    pub clear: u32,
    /// Counts one particle per thread.
    pub count: u32,
    /// Seeds `num_cells` cursors from the cell starts.
    pub copy: u32,
    /// Scatters one particle per thread.
    pub scatter: u32,
}

/// The dispatches of a rebuild of a grid of `num_cells` cells over
/// `capacity` particles.
pub fn grid_dispatches(num_cells: u32, capacity: u32) -> (r: GridDispatches)
    ensures
        r.clear == ceil_div(num_cells + 1, CLEAR_WG as int),
        r.count == ceil_div(capacity as int, PARTICLE_WG as int),
        r.copy == ceil_div(num_cells as int, COPY_WG as int),
        r.scatter == ceil_div(capacity as int, PARTICLE_WG as int),
{
    let clear = div_ceil_u64(num_cells as u64 + 1, CLEAR_WG);
    let count = div_ceil_u64(capacity as u64, PARTICLE_WG);
    let copy = div_ceil_u64(num_cells as u64, COPY_WG);
    GridDispatches { clear: clear as u32, count: count as u32, copy: copy as u32, scatter: count as u32 }
}

} // verus!
