//! The point lattice meshes that seed particle fields: which lattice point
//! each vertex is. Positions and texture coordinates (floating point) are
//! computed from these indices outside.
use vstd::prelude::*;

verus! {

/// The lattice point of vertex `k` of an `nx` by `ny` by `nz` lattice: `z`
/// varies fastest, then `y`, then `x`.
pub open spec fn lattice_point(k: int, ny: int, nz: int) -> (int, int, int) {
    (k / (ny * nz), (k / nz) % ny, k % nz)
}

/// The lattice points of an `nx` by `ny` by `nz` lattice, in vertex order.
pub fn lattice_points(nx: u32, ny: u32, nz: u32) -> (r: Vec<(u32, u32, u32)>)
    requires
        nx as int * ny as int * nz as int <= usize::MAX,
    ensures
        r@.len() == nx as int * ny as int * nz as int,
        forall|k: int|
            0 <= k < r@.len() ==> {
                let p = #[trigger] r@[k];
                (p.0 as int, p.1 as int, p.2 as int) == lattice_point(k, ny as int, nz as int)
            },
{
    let mut r: Vec<(u32, u32, u32)> = Vec::new();
    let mut ix: u32 = 0;
    while ix < nx
        invariant
            ix <= nx,
            nx as int * ny as int * nz as int <= usize::MAX,
            r@.len() == ix as int * ny as int * nz as int,
            forall|k: int|
                0 <= k < r@.len() ==> {
                    let p = #[trigger] r@[k];
                    (p.0 as int, p.1 as int, p.2 as int) == lattice_point(k, ny as int, nz as int)
                },
        decreases nx - ix,
    {
        let mut iy: u32 = 0;
        while iy < ny
            invariant
                ix < nx,
                iy <= ny,
                nx as int * ny as int * nz as int <= usize::MAX,
                r@.len() == (ix as int * ny as int + iy as int) * nz as int,
                forall|k: int|
                    0 <= k < r@.len() ==> {
                        let p = #[trigger] r@[k];
                        (p.0 as int, p.1 as int, p.2 as int) == lattice_point(k, ny as int, nz as int)
                    },
            decreases ny - iy,
        {
            let mut iz: u32 = 0;
            while iz < nz
                invariant
                    ix < nx,
                    iy < ny,
                    iz <= nz,
                    nx as int * ny as int * nz as int <= usize::MAX,
                    r@.len() == (ix as int * ny as int + iy as int) * nz as int + iz as int,
                    forall|k: int|
                        0 <= k < r@.len() ==> {
                            let p = #[trigger] r@[k];
                            (p.0 as int, p.1 as int, p.2 as int) == lattice_point(k, ny as int, nz as int)
                        },
                decreases nz - iz,
            {
                proof {
                    lemma_lattice_index(ix as int, iy as int, iz as int, ny as int, nz as int);
                    lemma_lattice_bound(ix as int, iy as int, iz as int, nx as int, ny as int, nz as int);
                }
                r.push((ix, iy, iz));
                iz = iz + 1;
            }
            proof {
                assert((ix as int * ny as int + iy as int) * nz as int + nz as int == (ix as int * ny as int
                    + (iy + 1) as int) * nz as int) by (nonlinear_arith);
            }
            iy = iy + 1;
        }
        proof {
            assert((ix as int * ny as int + ny as int) * nz as int == (ix + 1) as int * ny as int * nz as int)
                by (nonlinear_arith);
        }
        ix = ix + 1;
    }
    r
}

proof fn lemma_lattice_index(ix: int, iy: int, iz: int, ny: int, nz: int)
    requires
        0 <= iy < ny,
        0 <= iz < nz,
        0 <= ix,
    ensures
        lattice_point((ix * ny + iy) * nz + iz, ny, nz) == (ix, iy, iz),
{
    let k = (ix * ny + iy) * nz + iz;
    assert(k / nz == ix * ny + iy) by {
        vstd::arithmetic::div_mod::lemma_fundamental_div_mod_converse(k, nz, ix * ny + iy, iz);
    }
    assert(k % nz == iz) by {
        vstd::arithmetic::div_mod::lemma_fundamental_div_mod_converse(k, nz, ix * ny + iy, iz);
    }
    assert((k / nz) % ny == iy) by {
        vstd::arithmetic::div_mod::lemma_fundamental_div_mod_converse(ix * ny + iy, ny, ix, iy);
    }
    assert(k / (ny * nz) == ix) by {
        vstd::arithmetic::div_mod::lemma_div_denominator(k, nz, ny);
        vstd::arithmetic::div_mod::lemma_fundamental_div_mod_converse(ix * ny + iy, ny, ix, iy);
        vstd::arithmetic::mul::lemma_mul_is_commutative(nz, ny);
    }
}

proof fn lemma_lattice_bound(ix: int, iy: int, iz: int, nx: int, ny: int, nz: int)
    requires
        0 <= ix < nx,
        0 <= iy < ny,
        0 <= iz < nz,
    ensures
        (ix * ny + iy) * nz + iz < nx * ny * nz,
{
    assert((ix * ny + iy) * nz + iz < nx * ny * nz) by (nonlinear_arith)
        requires
            0 <= ix < nx,
            0 <= iy < ny,
            0 <= iz < nz,
    ;
}

} // verus!
