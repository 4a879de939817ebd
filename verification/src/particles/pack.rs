//! The pass that packs particle transforms into the renderer's instance
//! input: which bindings its pipeline has, and how many workgroups it runs.
use crate::arith::{ceil_div, div_ceil_u32};
use crate::particles::emit::WORKGROUP_SIZE;
use vstd::prelude::*;

verus! {

/// Which optional per-particle attributes the pack pass reads; each selects
/// a binding and a shader feature.
#[derive(Debug, Clone, Copy, PartialEq, Eq, Structural, Hash)]
pub struct PackPipelineKey {
    pub has_rotation: bool,
    pub has_scale: bool,
    pub has_life: bool,
}

/// How a binding of the pack pass is accessed.
#[derive(Debug, Clone, Copy, PartialEq, Eq, Structural)]
pub enum PackAccess {
    ReadWrite,
    ReadOnly,
    Uniform,
}

/// The binding of the renderer's instance input.
pub const PACK_INPUT: u32 = 0;

/// The binding of the renderer's culling data.
pub const PACK_CULLING: u32 = 1;

/// The binding of the positions.
pub const PACK_POSITION: u32 = 2;

/// The binding of the rotations, when read.
pub const PACK_ROTATION: u32 = 3;

/// The binding of the scales, when read.
pub const PACK_SCALE: u32 = 4;

/// The binding of the remaining lives, when read.
pub const PACK_LIFE: u32 = 5;

/// The binding of the parameters.
pub const PACK_PARAMS: u32 = 6;

/// The layout of the pack pass for `key`, binding by binding, in order.
pub open spec fn pack_layout_of(key: PackPipelineKey) -> Seq<(u32, PackAccess)> {
    seq![
        (PACK_INPUT, PackAccess::ReadWrite),
        (PACK_CULLING, PackAccess::ReadWrite),
        (PACK_POSITION, PackAccess::ReadOnly),
    ] + (if key.has_rotation {
        seq![(PACK_ROTATION, PackAccess::ReadOnly)]
    } else {
        Seq::empty()
    }) + (if key.has_scale {
        seq![(PACK_SCALE, PackAccess::ReadOnly)]
    } else {
        Seq::empty()
    }) + (if key.has_life {
        seq![(PACK_LIFE, PackAccess::ReadOnly)]
    } else {
        Seq::empty()
    }) + seq![(PACK_PARAMS, PackAccess::Uniform)]
}

/// The layout of the pack pass for `key`.
pub fn pack_layout_entries(key: PackPipelineKey) -> (r: Vec<(u32, PackAccess)>)
    ensures
        r@ == pack_layout_of(key),
{
    let mut r: Vec<(u32, PackAccess)> = Vec::new();
    r.push((PACK_INPUT, PackAccess::ReadWrite));
    r.push((PACK_CULLING, PackAccess::ReadWrite));
    r.push((PACK_POSITION, PackAccess::ReadOnly));
    let ghost base = r@;
    if key.has_rotation {
        r.push((PACK_ROTATION, PackAccess::ReadOnly));
    }
    let ghost with_rotation = r@;
    if key.has_scale {
        r.push((PACK_SCALE, PackAccess::ReadOnly));
    }
    let ghost with_scale = r@;
    if key.has_life {
        r.push((PACK_LIFE, PackAccess::ReadOnly));
    }
    r.push((PACK_PARAMS, PackAccess::Uniform));
    assert(r@ =~= pack_layout_of(key));
    r
}

/// A feature the pack shader is compiled with.
#[derive(Debug, Clone, Copy, PartialEq, Eq, Structural)]
pub enum PackFeature {
    Rotation,
    Scale,
    Life,
}

/// The features of the pack shader for `key`, in order.
pub open spec fn pack_features_of(key: PackPipelineKey) -> Seq<PackFeature> {
    (if key.has_rotation {
        seq![PackFeature::Rotation]
    } else {
        Seq::empty()
    }) + (if key.has_scale {
        seq![PackFeature::Scale]
    } else {
        Seq::empty()
    }) + (if key.has_life {
        seq![PackFeature::Life]
    } else {
        Seq::empty()
    })
}

/// The features of the pack shader for `key`.
pub fn shader_defs_for(key: PackPipelineKey) -> (r: Vec<PackFeature>)
    ensures
        r@ == pack_features_of(key),
{
    let mut r: Vec<PackFeature> = Vec::new();
    if key.has_rotation {
        r.push(PackFeature::Rotation);
    }
    if key.has_scale {
        r.push(PackFeature::Scale);
    }
    if key.has_life {
        r.push(PackFeature::Life);
    }
    assert(r@ =~= pack_features_of(key));
    r
}

/// The pack pass's layout and shader agree on what it reads: the instance
/// input (binding `0`) and culling data (`1`) are written, the positions
/// (`2`) read, and the parameters (`6`) come last as a uniform; rotations
/// (`3`), scales (`4`) and lives (`5`) are bound read-only exactly when the
/// key reads them, which is exactly when the shader has the matching
/// feature. Bindings come in increasing order, so none repeats.
pub proof fn lemma_pack_layout_matches_features(key: PackPipelineKey)
    ensures
        pack_layout_of(key).len() == 4 + pack_features_of(key).len(),
        pack_layout_of(key)[0] == (0u32, PackAccess::ReadWrite),
        pack_layout_of(key)[1] == (1u32, PackAccess::ReadWrite),
        pack_layout_of(key)[2] == (2u32, PackAccess::ReadOnly),
        pack_layout_of(key).last() == (6u32, PackAccess::Uniform),
        forall|i: int, j: int| 0 <= i < j < pack_layout_of(key).len() ==> pack_layout_of(key)[i].0 < pack_layout_of(key)[j].0,
        pack_layout_of(key).contains((3u32, PackAccess::ReadOnly)) <==> key.has_rotation,
        pack_layout_of(key).contains((4u32, PackAccess::ReadOnly)) <==> key.has_scale,
        pack_layout_of(key).contains((5u32, PackAccess::ReadOnly)) <==> key.has_life,
        pack_features_of(key).contains(PackFeature::Rotation) <==> key.has_rotation,
        pack_features_of(key).contains(PackFeature::Scale) <==> key.has_scale,
        pack_features_of(key).contains(PackFeature::Life) <==> key.has_life,
{
    let l = pack_layout_of(key);
    let f = pack_features_of(key);
    let r = key.has_rotation;
    let sc = key.has_scale;
    let li = key.has_life;
    let mut expect: Seq<(u32, PackAccess)> = seq![(0u32, PackAccess::ReadWrite), (1u32, PackAccess::ReadWrite), (2u32, PackAccess::ReadOnly)];
    let mut feats: Seq<PackFeature> = Seq::empty();
    if r {
        expect = expect.push((3u32, PackAccess::ReadOnly));
        feats = feats.push(PackFeature::Rotation);
    }
    if sc {
        expect = expect.push((4u32, PackAccess::ReadOnly));
        feats = feats.push(PackFeature::Scale);
    }
    if li {
        expect = expect.push((5u32, PackAccess::ReadOnly));
        feats = feats.push(PackFeature::Life);
    }
    expect = expect.push((6u32, PackAccess::Uniform));
    assert(l =~= expect);
    assert(f =~= feats);
    if r {
        assert(l[3] == (3u32, PackAccess::ReadOnly));
        assert(f[0] == PackFeature::Rotation);
    }
    if sc {
        let k = if r { 4int } else { 3int };
        assert(l[k] == (4u32, PackAccess::ReadOnly));
        assert(f[k - 3] == PackFeature::Scale);
    }
    if li {
        let k = 3 + (if r { 1int } else { 0 }) + (if sc { 1int } else { 0 });
        assert(l[k] == (5u32, PackAccess::ReadOnly));
        assert(f[k - 3] == PackFeature::Life);
    }
}

/// A batch is packed only if every attribute its key reads has a buffer on
/// the GPU.
pub open spec fn pack_ready(key: PackPipelineKey, rotation: bool, scale: bool, life: bool) -> bool {
    (key.has_rotation ==> rotation) && (key.has_scale ==> scale) && (key.has_life ==> life)
}

/// Whether a batch with `key` can be packed, given which attribute buffers
/// are on the GPU.
pub fn can_pack(key: PackPipelineKey, rotation: bool, scale: bool, life: bool) -> (r: bool)
    ensures
        r == pack_ready(key, rotation, scale, life),
{
    !(key.has_rotation && !rotation) && !(key.has_scale && !scale) && !(key.has_life && !life)
}

/// The workgroups that pack `capacity` particle instances.
pub fn pack_dispatch_count(capacity: u32) -> (r: u32)
    ensures
        r == ceil_div(capacity as int, WORKGROUP_SIZE as int),
{
    div_ceil_u32(capacity, WORKGROUP_SIZE)
}

} // verus!
