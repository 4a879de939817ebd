//! Materials: the named properties of the physically based material, and
//! which backing a material has when its albedo comes from a color or from
//! per-particle buffers.
use crate::bytes::str_is;
use crate::entity::EntityId;
use crate::error::{InvalidArgument, ProcessingError};
use vstd::prelude::*;
use vstd::string::StringSliceAdditionalSpecFns;

verus! {

/// A settable property of the physically based material.
#[derive(Debug, Clone, Copy, PartialEq, Eq, Structural)]
pub enum PbrProperty {
    BaseColor,
    Metallic,
    Roughness,
    Reflectance,
    Emissive,
    Unlit,
    DoubleSided,
    AlphaMode,
}

/// The shape of a value given for a property.
#[derive(Debug, Clone, Copy, PartialEq, Eq, Structural)]
pub enum ValueShape {
    Float,
    Float4,
    Int,
    Other,
}

pub const PROP_BASE_COLOR: [u8; 10] = [98, 97, 115, 101, 95, 99, 111, 108, 111, 114];

pub const PROP_COLOR: [u8; 5] = [99, 111, 108, 111, 114];

pub const PROP_METALLIC: [u8; 8] = [109, 101, 116, 97, 108, 108, 105, 99];

pub const PROP_ROUGHNESS: [u8; 9] = [114, 111, 117, 103, 104, 110, 101, 115, 115];

pub const PROP_PERCEPTUAL_ROUGHNESS: [u8; 20] = [
    112,
    101,
    114,
    99,
    101,
    112,
    116,
    117,
    97,
    108,
    95,
    114,
    111,
    117,
    103,
    104,
    110,
    101,
    115,
    115,
];

pub const PROP_REFLECTANCE: [u8; 11] = [114, 101, 102, 108, 101, 99, 116, 97, 110, 99, 101];

pub const PROP_EMISSIVE: [u8; 8] = [101, 109, 105, 115, 115, 105, 118, 101];

pub const PROP_UNLIT: [u8; 5] = [117, 110, 108, 105, 116];

pub const PROP_DOUBLE_SIDED: [u8; 12] = [100, 111, 117, 98, 108, 101, 95, 115, 105, 100, 101, 100];

pub const PROP_ALPHA_MODE: [u8; 10] = [97, 108, 112, 104, 97, 95, 109, 111, 100, 101];

/// The property called `name` (some have two names).
pub open spec fn pbr_property_named(name: Seq<u8>) -> Option<PbrProperty> {
    if name == PROP_BASE_COLOR@ || name == PROP_COLOR@ {
        Some(PbrProperty::BaseColor)
    } else if name == PROP_METALLIC@ {
        Some(PbrProperty::Metallic)
    } else if name == PROP_ROUGHNESS@ || name == PROP_PERCEPTUAL_ROUGHNESS@ {
        Some(PbrProperty::Roughness)
    } else if name == PROP_REFLECTANCE@ {
        Some(PbrProperty::Reflectance)
    } else if name == PROP_EMISSIVE@ {
        Some(PbrProperty::Emissive)
    } else if name == PROP_UNLIT@ {
        Some(PbrProperty::Unlit)
    } else if name == PROP_DOUBLE_SIDED@ {
        Some(PbrProperty::DoubleSided)
    } else if name == PROP_ALPHA_MODE@ {
        Some(PbrProperty::AlphaMode)
    } else {
        None
    }
}

/// The value shape a property takes: colors four floats, the alpha mode an
/// integer, the rest one float (flags are set when it exceeds one half).
pub open spec fn expected_shape(p: PbrProperty) -> ValueShape {
    match p {
        PbrProperty::BaseColor | PbrProperty::Emissive => ValueShape::Float4,
        PbrProperty::AlphaMode => ValueShape::Int,
        _ => ValueShape::Float,
    }
}

/// What setting property `name` to a value of `shape` does: the property,
/// or why it is refused.
pub open spec fn pbr_update_of(name: Seq<u8>, shape: ValueShape) -> Result<PbrProperty, ProcessingError> {
    match pbr_property_named(name) {
        None => Err(ProcessingError::UnknownMaterialProperty),
        Some(p) => if expected_shape(p) == shape {
            Ok(p)
        } else {
            Err(ProcessingError::InvalidArgument(InvalidArgument::PropertyKindMismatch))
        },
    }
}

/// Resolves a property name and checks the value's shape.
pub fn pbr_update(name: &str, shape: ValueShape) -> (r: Result<PbrProperty, ProcessingError>)
    ensures
        r == pbr_update_of(name.spec_bytes(), shape),
{
    let p = if str_is(name, &PROP_BASE_COLOR) || str_is(name, &PROP_COLOR) {
        PbrProperty::BaseColor
    } else if str_is(name, &PROP_METALLIC) {
        PbrProperty::Metallic
    } else if str_is(name, &PROP_ROUGHNESS) || str_is(name, &PROP_PERCEPTUAL_ROUGHNESS) {
        PbrProperty::Roughness
    } else if str_is(name, &PROP_REFLECTANCE) {
        PbrProperty::Reflectance
    } else if str_is(name, &PROP_EMISSIVE) {
        PbrProperty::Emissive
    } else if str_is(name, &PROP_UNLIT) {
        PbrProperty::Unlit
    } else if str_is(name, &PROP_DOUBLE_SIDED) {
        PbrProperty::DoubleSided
    } else if str_is(name, &PROP_ALPHA_MODE) {
        PbrProperty::AlphaMode
    } else {
        return Err(ProcessingError::UnknownMaterialProperty);
    };
    let expected = match p {
        PbrProperty::BaseColor | PbrProperty::Emissive => ValueShape::Float4,
        PbrProperty::AlphaMode => ValueShape::Int,
        _ => ValueShape::Float,
    };
    if expected == shape {
        Ok(p)
    } else {
        Err(ProcessingError::InvalidArgument(InvalidArgument::PropertyKindMismatch))
    }
}

/// How a material's alpha is used.
#[derive(Debug, Clone, Copy, PartialEq, Eq, Structural)]
pub enum AlphaMode {
    Opaque,
    /// Alpha-tested, with a cutoff of one half.
    Mask,
    Blend,
    Premultiplied,
    Add,
    Multiply,
}

/// The alpha mode numbered `v` (`0..=5`, in declaration order).
pub open spec fn alpha_mode_of(v: i32) -> Option<AlphaMode> {
    if v == 0 {
        Some(AlphaMode::Opaque)
    } else if v == 1 {
        Some(AlphaMode::Mask)
    } else if v == 2 {
        Some(AlphaMode::Blend)
    } else if v == 3 {
        Some(AlphaMode::Premultiplied)
    } else if v == 4 {
        Some(AlphaMode::Add)
    } else if v == 5 {
        Some(AlphaMode::Multiply)
    } else {
        None
    }
}

/// The alpha mode numbered `v`; other numbers are an error.
pub fn alpha_mode_from_int(v: i32) -> (r: Result<AlphaMode, ProcessingError>)
    ensures
        match alpha_mode_of(v) {
            Some(m) => r == Ok::<AlphaMode, ProcessingError>(m),
            None => r == Err::<AlphaMode, ProcessingError>(
                ProcessingError::InvalidArgument(InvalidArgument::UnknownAlphaMode(v)),
            ),
        },
{
    match v {
        0 => Ok(AlphaMode::Opaque),
        1 => Ok(AlphaMode::Mask),
        2 => Ok(AlphaMode::Blend),
        3 => Ok(AlphaMode::Premultiplied),
        4 => Ok(AlphaMode::Add),
        5 => Ok(AlphaMode::Multiply),
        _ => Err(ProcessingError::InvalidArgument(InvalidArgument::UnknownAlphaMode(v))),
    }
}

/// Which material asset backs a material entity.
#[derive(Debug, Clone, Copy, PartialEq, Eq, Structural)]
pub enum MaterialBacking {
    /// The default material: a constant albedo.
    Default,
    /// The particles material: albedo and emissive colors read per particle
    /// from these buffers, where set.
    Particles { colors: Option<EntityId>, emissive_colors: Option<EntityId> },
    /// A custom shader material.
    Custom,
}

/// Which per-particle color buffer to set.
#[derive(Debug, Clone, Copy, PartialEq, Eq, Structural)]
pub enum ParticlesBufferSlot {
    Albedo,
    Emissive,
}

/// The backing after setting a constant albedo color: a particles material
/// becomes the default material again (its other settings carried over); a
/// custom material has no albedo to set.
pub open spec fn after_albedo_color(b: MaterialBacking) -> Result<MaterialBacking, ProcessingError> {
    match b {
        MaterialBacking::Custom => Err(ProcessingError::MaterialNotFound),
        _ => Ok(MaterialBacking::Default),
    }
}

/// The backing after reading one color per particle from `buffer`: a
/// particles material takes the buffer in that slot and keeps the other; the
/// default material becomes a particles material with only that slot set.
pub open spec fn after_particles_buffer(
    b: MaterialBacking,
    slot: ParticlesBufferSlot,
    buffer: EntityId,
) -> Result<MaterialBacking, ProcessingError> {
    match b {
        MaterialBacking::Custom => Err(ProcessingError::MaterialNotFound),
        MaterialBacking::Default => Ok(
            match slot {
                ParticlesBufferSlot::Albedo => MaterialBacking::Particles {
                    colors: Some(buffer),
                    emissive_colors: None,
                },
                ParticlesBufferSlot::Emissive => MaterialBacking::Particles {
                    colors: None,
                    emissive_colors: Some(buffer),
                },
            },
        ),
        MaterialBacking::Particles { colors, emissive_colors } => Ok(
            match slot {
                ParticlesBufferSlot::Albedo => MaterialBacking::Particles {
                    colors: Some(buffer),
                    emissive_colors,
                },
                ParticlesBufferSlot::Emissive => MaterialBacking::Particles {
                    colors,
                    emissive_colors: Some(buffer),
                },
            },
        ),
    }
}

/// The backing a material has after its albedo is set to a constant color.
pub fn set_albedo_color(b: MaterialBacking) -> (r: Result<MaterialBacking, ProcessingError>)
    ensures
        r == after_albedo_color(b),
{
    match b {
        MaterialBacking::Custom => Err(ProcessingError::MaterialNotFound),
        _ => Ok(MaterialBacking::Default),
    }
}

/// The backing a material has after a per-particle color buffer is set.
pub fn set_particles_buffer(b: MaterialBacking, slot: ParticlesBufferSlot, buffer: EntityId) -> (r: Result<
    MaterialBacking,
    ProcessingError,
>)
    ensures
        r == after_particles_buffer(b, slot, buffer),
{
    match b {
        MaterialBacking::Custom => Err(ProcessingError::MaterialNotFound),
        MaterialBacking::Default => Ok(
            match slot {
                ParticlesBufferSlot::Albedo => MaterialBacking::Particles {
                    colors: Some(buffer),
                    emissive_colors: None,
                },
                ParticlesBufferSlot::Emissive => MaterialBacking::Particles {
                    colors: None,
                    emissive_colors: Some(buffer),
                },
            },
        ),
        MaterialBacking::Particles { colors, emissive_colors } => Ok(
            match slot {
                ParticlesBufferSlot::Albedo => MaterialBacking::Particles {
                    colors: Some(buffer),
                    emissive_colors,
                },
                ParticlesBufferSlot::Emissive => MaterialBacking::Particles {
                    colors,
                    emissive_colors: Some(buffer),
                },
            },
        ),
    }
}

/// The settable properties by name: `base_color` (or `color`) and
/// `emissive` take four floats, `alpha_mode` an integer, and `metallic`,
/// `roughness` (or `perceptual_roughness`), `reflectance`, `unlit` and
/// `double_sided` one float; a value of another shape is a kind mismatch,
/// and any other name is an unknown property.
pub proof fn lemma_pbr_property_names(name: Seq<u8>, shape: ValueShape)
    ensures
        name == seq![98u8, 97, 115, 101, 95, 99, 111, 108, 111, 114] ==> pbr_update_of(name, shape) == (if shape == ValueShape::Float4 {
            Ok::<PbrProperty, ProcessingError>(PbrProperty::BaseColor)
        } else {
            Err::<PbrProperty, ProcessingError>(ProcessingError::InvalidArgument(InvalidArgument::PropertyKindMismatch))
        }),
        name == seq![99u8, 111, 108, 111, 114] ==> pbr_update_of(name, shape) == (if shape == ValueShape::Float4 {
            Ok::<PbrProperty, ProcessingError>(PbrProperty::BaseColor)
        } else {
            Err::<PbrProperty, ProcessingError>(ProcessingError::InvalidArgument(InvalidArgument::PropertyKindMismatch))
        }),
        name == seq![109u8, 101, 116, 97, 108, 108, 105, 99] ==> pbr_update_of(name, shape) == (if shape == ValueShape::Float {
            Ok::<PbrProperty, ProcessingError>(PbrProperty::Metallic)
        } else {
            Err::<PbrProperty, ProcessingError>(ProcessingError::InvalidArgument(InvalidArgument::PropertyKindMismatch))
        }),
        name == seq![114u8, 111, 117, 103, 104, 110, 101, 115, 115] ==> pbr_update_of(name, shape) == (if shape == ValueShape::Float {
            Ok::<PbrProperty, ProcessingError>(PbrProperty::Roughness)
        } else {
            Err::<PbrProperty, ProcessingError>(ProcessingError::InvalidArgument(InvalidArgument::PropertyKindMismatch))
        }),
        name == seq![112u8, 101, 114, 99, 101, 112, 116, 117, 97, 108, 95, 114, 111, 117, 103, 104, 110, 101, 115, 115] ==> pbr_update_of(name, shape) == (if shape == ValueShape::Float {
            Ok::<PbrProperty, ProcessingError>(PbrProperty::Roughness)
        } else {
            Err::<PbrProperty, ProcessingError>(ProcessingError::InvalidArgument(InvalidArgument::PropertyKindMismatch))
        }),
        name == seq![114u8, 101, 102, 108, 101, 99, 116, 97, 110, 99, 101] ==> pbr_update_of(name, shape) == (if shape == ValueShape::Float {
            Ok::<PbrProperty, ProcessingError>(PbrProperty::Reflectance)
        } else {
            Err::<PbrProperty, ProcessingError>(ProcessingError::InvalidArgument(InvalidArgument::PropertyKindMismatch))
        }),
        name == seq![101u8, 109, 105, 115, 115, 105, 118, 101] ==> pbr_update_of(name, shape) == (if shape == ValueShape::Float4 {
            Ok::<PbrProperty, ProcessingError>(PbrProperty::Emissive)
        } else {
            Err::<PbrProperty, ProcessingError>(ProcessingError::InvalidArgument(InvalidArgument::PropertyKindMismatch))
        }),
        name == seq![117u8, 110, 108, 105, 116] ==> pbr_update_of(name, shape) == (if shape == ValueShape::Float {
            Ok::<PbrProperty, ProcessingError>(PbrProperty::Unlit)
        } else {
            Err::<PbrProperty, ProcessingError>(ProcessingError::InvalidArgument(InvalidArgument::PropertyKindMismatch))
        }),
        name == seq![100u8, 111, 117, 98, 108, 101, 95, 115, 105, 100, 101, 100] ==> pbr_update_of(name, shape) == (if shape == ValueShape::Float {
            Ok::<PbrProperty, ProcessingError>(PbrProperty::DoubleSided)
        } else {
            Err::<PbrProperty, ProcessingError>(ProcessingError::InvalidArgument(InvalidArgument::PropertyKindMismatch))
        }),
        name == seq![97u8, 108, 112, 104, 97, 95, 109, 111, 100, 101] ==> pbr_update_of(name, shape) == (if shape == ValueShape::Int {
            Ok::<PbrProperty, ProcessingError>(PbrProperty::AlphaMode)
        } else {
            Err::<PbrProperty, ProcessingError>(ProcessingError::InvalidArgument(InvalidArgument::PropertyKindMismatch))
        }),
        (name != seq![98u8, 97, 115, 101, 95, 99, 111, 108, 111, 114] && name != seq![99u8, 111, 108, 111, 114] && name != seq![109u8, 101, 116, 97, 108, 108, 105, 99] && name != seq![114u8, 111, 117, 103, 104, 110, 101, 115, 115] && name != seq![112u8, 101, 114, 99, 101, 112, 116, 117, 97, 108, 95, 114, 111, 117, 103, 104, 110, 101, 115, 115] && name != seq![114u8, 101, 102, 108, 101, 99, 116, 97, 110, 99, 101] && name != seq![101u8, 109, 105, 115, 115, 105, 118, 101] && name != seq![117u8, 110, 108, 105, 116] && name != seq![100u8, 111, 117, 98, 108, 101, 95, 115, 105, 100, 101, 100] && name != seq![97u8, 108, 112, 104, 97, 95, 109, 111, 100, 101]) ==> pbr_update_of(name, shape) == Err::<PbrProperty, ProcessingError>(
            ProcessingError::UnknownMaterialProperty,
        ),
{
    assert(PROP_BASE_COLOR@ =~= seq![98u8, 97, 115, 101, 95, 99, 111, 108, 111, 114]);
    assert(PROP_COLOR@ =~= seq![99u8, 111, 108, 111, 114]);
    assert(PROP_METALLIC@ =~= seq![109u8, 101, 116, 97, 108, 108, 105, 99]);
    assert(PROP_ROUGHNESS@ =~= seq![114u8, 111, 117, 103, 104, 110, 101, 115, 115]);
    assert(PROP_PERCEPTUAL_ROUGHNESS@ =~= seq![112u8, 101, 114, 99, 101, 112, 116, 117, 97, 108, 95, 114, 111, 117, 103, 104, 110, 101, 115, 115]);
    assert(PROP_REFLECTANCE@ =~= seq![114u8, 101, 102, 108, 101, 99, 116, 97, 110, 99, 101]);
    assert(PROP_EMISSIVE@ =~= seq![101u8, 109, 105, 115, 115, 105, 118, 101]);
    assert(PROP_UNLIT@ =~= seq![117u8, 110, 108, 105, 116]);
    assert(PROP_DOUBLE_SIDED@ =~= seq![100u8, 111, 117, 98, 108, 101, 95, 115, 105, 100, 101, 100]);
    assert(PROP_ALPHA_MODE@ =~= seq![97u8, 108, 112, 104, 97, 95, 109, 111, 100, 101]);
}

/// The alpha modes by number: `0` opaque, `1` masked, `2` blended, `3`
/// premultiplied, `4` additive, `5` multiplicative; no other number names
/// one, and no two numbers name the same mode.
pub proof fn lemma_alpha_mode_numbers(v: i32, w: i32)
    ensures
        (alpha_mode_of(v) is Some) <==> 0 <= v <= 5,
        v == 0 ==> alpha_mode_of(v) == Some(AlphaMode::Opaque),
        v == 1 ==> alpha_mode_of(v) == Some(AlphaMode::Mask),
        v == 2 ==> alpha_mode_of(v) == Some(AlphaMode::Blend),
        v == 3 ==> alpha_mode_of(v) == Some(AlphaMode::Premultiplied),
        v == 4 ==> alpha_mode_of(v) == Some(AlphaMode::Add),
        v == 5 ==> alpha_mode_of(v) == Some(AlphaMode::Multiply),
        alpha_mode_of(v) is Some && v != w ==> alpha_mode_of(v) != alpha_mode_of(w),
{
}

/// Setting a constant albedo undoes any per-particle buffers: whatever
/// buffers were set, the material is the default material again.
pub proof fn lemma_albedo_color_resets(b: MaterialBacking, slot: ParticlesBufferSlot, buffer: EntityId)
    requires
        b != MaterialBacking::Custom,
    ensures
        after_particles_buffer(b, slot, buffer) matches Ok(p) && after_albedo_color(p) == Ok::<
            MaterialBacking,
            ProcessingError,
        >(MaterialBacking::Default),
{
}

/// Setting one buffer slot keeps the other: setting the albedo and then the
/// emissive buffer, in either order, gives the same material.
pub proof fn lemma_buffer_slots_commute(b: MaterialBacking, albedo: EntityId, emissive: EntityId)
    requires
        b != MaterialBacking::Custom,
    ensures
        ({
            let x = after_particles_buffer(b, ParticlesBufferSlot::Albedo, albedo).unwrap();
            let y = after_particles_buffer(b, ParticlesBufferSlot::Emissive, emissive).unwrap();
            after_particles_buffer(x, ParticlesBufferSlot::Emissive, emissive) == after_particles_buffer(
                y,
                ParticlesBufferSlot::Albedo,
                albedo,
            )
        }),
{
}

} // verus!
