//! Which material the drawing state draws with, and when consecutive draws
//! can share one batch.
//!
//! The engine's material keys also carry a background image and a texture
//! coordinate transform. Every key the drawing state holds has no image and
//! the identity transform, so the keys here leave both out; draws that use an
//! image build their key outside.
use crate::entity::EntityId;
use crate::render::command::BlendState;
use vstd::prelude::*;

verus! {

/// The material of the drawing state.
#[derive(Debug, Clone, Copy, PartialEq, Eq)]
pub enum MaterialKey {
    /// Flat color; `transparent` when the fill is not opaque.
    Color { transparent: bool, blend_state: Option<BlendState> },
    /// Physically based: albedo and emissive as 8-bit RGBA, roughness and
    /// metallic scaled to `0..=255`.
    Pbr {
        albedo: [u8; 4],
        roughness: u8,
        metallic: u8,
        emissive: [u8; 4],
        blend_state: Option<BlendState>,
    },
    /// A custom shader material entity.
    Custom { entity: EntityId, blend_state: Option<BlendState> },
}

/// The physically based fields of a key.
#[derive(Debug, Clone, Copy, PartialEq, Eq)]
pub struct PbrFields {
    pub albedo: [u8; 4],
    pub roughness: u8,
    pub metallic: u8,
    pub emissive: [u8; 4],
    pub blend_state: Option<BlendState>,
}

/// The key a fresh drawing state starts from: opaque flat color.
pub open spec fn initial_key() -> MaterialKey {
    MaterialKey::Color { transparent: false, blend_state: None }
}

/// The physically based fields of `k`; a key of another kind gives the
/// defaults: white albedo, half roughness, not metallic, no emission.
pub open spec fn pbr_of(k: MaterialKey) -> PbrFields {
    match k {
        MaterialKey::Pbr { albedo, roughness, metallic, emissive, blend_state } => PbrFields {
            albedo,
            roughness,
            metallic,
            emissive,
            blend_state,
        },
        _ => PbrFields {
            albedo: [255, 255, 255, 255],
            roughness: 128,
            metallic: 0,
            emissive: [0, 0, 0, 0],
            blend_state: None,
        },
    }
}

/// The key of physically based fields.
pub open spec fn key_of_pbr(p: PbrFields) -> MaterialKey {
    MaterialKey::Pbr {
        albedo: p.albedo,
        roughness: p.roughness,
        metallic: p.metallic,
        emissive: p.emissive,
        blend_state: p.blend_state,
    }
}

impl MaterialKey {
    /// The key's physically based fields (defaults for other kinds).
    pub fn as_pbr(&self) -> (r: PbrFields)
        ensures
            r == pbr_of(*self),
    {
        match *self {
            MaterialKey::Pbr { albedo, roughness, metallic, emissive, blend_state } => PbrFields {
                albedo,
                roughness,
                metallic,
                emissive,
                blend_state,
            },
            _ => PbrFields {
                albedo: [255, 255, 255, 255],
                roughness: 128,
                metallic: 0,
                emissive: [0, 0, 0, 0],
                blend_state: None,
            },
        }
    }

    /// The key's blend state.
    pub fn blend_state(&self) -> (r: Option<BlendState>)
        ensures
            r == match *self {
                MaterialKey::Color { blend_state, .. } => blend_state,
                MaterialKey::Pbr { blend_state, .. } => blend_state,
                MaterialKey::Custom { blend_state, .. } => blend_state,
            },
    {
        match *self {
            MaterialKey::Color { blend_state, .. } => blend_state,
            MaterialKey::Pbr { blend_state, .. } => blend_state,
            MaterialKey::Custom { blend_state, .. } => blend_state,
        }
    }
}

impl From<PbrFields> for MaterialKey {
    fn from(p: PbrFields) -> (r: Self) {
        MaterialKey::Pbr {
            albedo: p.albedo,
            roughness: p.roughness,
            metallic: p.metallic,
            emissive: p.emissive,
            blend_state: p.blend_state,
        }
    }
}

impl vstd::std_specs::convert::FromSpecImpl<PbrFields> for MaterialKey {
    open spec fn obeys_from_spec() -> bool {
        true
    }

    open spec fn from_spec(p: PbrFields) -> Self {
        key_of_pbr(p)
    }
}

/// The key a fill or stroke of a color draws with: a flat key takes the
/// color's transparency, a physically based key takes the color as albedo,
/// a custom key keeps its entity; each takes the draw's blend state.
pub open spec fn with_color_of(
    k: MaterialKey,
    transparent: bool,
    albedo: [u8; 4],
    blend_state: Option<BlendState>,
) -> MaterialKey {
    match k {
        MaterialKey::Color { .. } => MaterialKey::Color { transparent, blend_state },
        MaterialKey::Pbr { roughness, metallic, emissive, .. } => MaterialKey::Pbr {
            albedo,
            roughness,
            metallic,
            emissive,
            blend_state,
        },
        MaterialKey::Custom { entity, .. } => MaterialKey::Custom { entity, blend_state },
    }
}

/// The key a draw in a color uses: `transparent` when the color's alpha is
/// below one, `albedo` the color as 8-bit RGBA.
pub fn key_with_color(
    k: &MaterialKey,
    transparent: bool,
    albedo: [u8; 4],
    blend_state: Option<BlendState>,
) -> (r: MaterialKey)
    ensures
        r == with_color_of(*k, transparent, albedo, blend_state),
{
    match *k {
        MaterialKey::Color { .. } => MaterialKey::Color { transparent, blend_state },
        MaterialKey::Pbr { roughness, metallic, emissive, .. } => MaterialKey::Pbr {
            albedo,
            roughness,
            metallic,
            emissive,
            blend_state,
        },
        MaterialKey::Custom { entity, .. } => MaterialKey::Custom { entity, blend_state },
    }
}

/// The key a draw uses carries the draw's blend state, whatever the kind of
/// the state's key, and keeps that kind: a flat key takes the draw's
/// transparency, a physically based key takes the draw's color as albedo and
/// keeps its roughness, metallic and emissive, and a custom key keeps its
/// entity. Deriving the key again from the result changes nothing, and a
/// second draw with the same key, transform and no blend state joins the
/// first one's batch.
pub proof fn lemma_draw_key(k: MaterialKey, transparent: bool, albedo: [u8; 4], bs: Option<BlendState>)
    ensures
        match with_color_of(k, transparent, albedo, bs) {
            MaterialKey::Color { blend_state, .. } => blend_state == bs,
            MaterialKey::Pbr { blend_state, .. } => blend_state == bs,
            MaterialKey::Custom { blend_state, .. } => blend_state == bs,
        },
        match k {
            MaterialKey::Color { .. } => with_color_of(k, transparent, albedo, bs) == MaterialKey::Color {
                transparent,
                blend_state: bs,
            },
            MaterialKey::Pbr { roughness, metallic, emissive, .. } => with_color_of(
                k,
                transparent,
                albedo,
                bs,
            ) == MaterialKey::Pbr { albedo, roughness, metallic, emissive, blend_state: bs },
            MaterialKey::Custom { entity, .. } => with_color_of(k, transparent, albedo, bs)
                == MaterialKey::Custom { entity, blend_state: bs },
        },
        with_color_of(with_color_of(k, transparent, albedo, bs), transparent, albedo, bs) == with_color_of(
            k,
            transparent,
            albedo,
            bs,
        ),
        !needs_batch_of(
            Some(with_color_of(k, transparent, albedo, bs)),
            with_color_of(k, transparent, albedo, bs),
            false,
            false,
        ),
{
}

fn rgba_eq(a: &[u8; 4], b: &[u8; 4]) -> (r: bool)
    ensures
        r == (*a == *b),
{
    if a[0] == b[0] && a[1] == b[1] && a[2] == b[2] && a[3] == b[3] {
        assert(*a =~= *b);
        true
    } else {
        false
    }
}

/// Whether two keys are the same key.
pub fn keys_equal(a: &MaterialKey, b: &MaterialKey) -> (r: bool)
    ensures
        r == (*a == *b),
{
    match (*a, *b) {
        (
            MaterialKey::Color { transparent: t1, blend_state: b1 },
            MaterialKey::Color { transparent: t2, blend_state: b2 },
        ) => t1 == t2 && b1 == b2,
        (
            MaterialKey::Pbr { albedo: a1, roughness: r1, metallic: m1, emissive: e1, blend_state: b1 },
            MaterialKey::Pbr { albedo: a2, roughness: r2, metallic: m2, emissive: e2, blend_state: b2 },
        ) => rgba_eq(&a1, &a2) && r1 == r2 && m1 == m2 && rgba_eq(&e1, &e2) && b1 == b2,
        (
            MaterialKey::Custom { entity: x1, blend_state: b1 },
            MaterialKey::Custom { entity: x2, blend_state: b2 },
        ) => x1 == x2 && b1 == b2,
        _ => false,
    }
}

/// A draw needs a batch of its own when its key differs from the current
/// batch's (or there is none), when the transform changed, or when it blends
/// with a custom state, which keeps draws apart.
pub open spec fn needs_batch_of(
    batch_key: Option<MaterialKey>,
    key: MaterialKey,
    transform_changed: bool,
    has_blend_state: bool,
) -> bool {
    batch_key != Some(key) || transform_changed || has_blend_state
}

/// When a draw starts a batch of its own: always where no batch is open,
/// where the transform changed or where the draw blends with a custom
/// state; otherwise exactly when its key differs from the open batch's. So a
/// run of draws with one key, one transform and no blend state shares one
/// batch, and a draw with another key never joins it.
pub proof fn lemma_batch_rules(
    batch_key: Option<MaterialKey>,
    key: MaterialKey,
    transform_changed: bool,
    has_blend_state: bool,
)
    ensures
        batch_key is None ==> needs_batch_of(batch_key, key, transform_changed, has_blend_state),
        transform_changed ==> needs_batch_of(batch_key, key, transform_changed, has_blend_state),
        has_blend_state ==> needs_batch_of(batch_key, key, transform_changed, has_blend_state),
        batch_key is Some && !transform_changed && !has_blend_state ==> (needs_batch_of(
            batch_key,
            key,
            transform_changed,
            has_blend_state,
        ) <==> batch_key->Some_0 != key),
{
}

/// Whether a draw with `key` starts a new batch.
pub fn needs_batch(
    batch_key: &Option<MaterialKey>,
    key: &MaterialKey,
    transform_changed: bool,
    has_blend_state: bool,
) -> (r: bool)
    ensures
        r == needs_batch_of(*batch_key, *key, transform_changed, has_blend_state),
{
    let material_changed = match batch_key {
        Some(b) => !keys_equal(b, key),
        None => true,
    };
    material_changed || transform_changed || has_blend_state
}

} // verus!
