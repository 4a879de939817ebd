use processing_render::entity::EntityId;
use processing_render::error::{InvalidArgument, ProcessingError};
use processing_render::material::{
    alpha_mode_from_int, pbr_update, set_albedo_color, set_particles_buffer, AlphaMode,
    MaterialBacking, ParticlesBufferSlot, PbrProperty, ValueShape,
};

#[test]
fn pbr_properties_by_name_and_shape() {
    assert_eq!(pbr_update("color", ValueShape::Float4), Ok(PbrProperty::BaseColor));
    assert_eq!(pbr_update("base_color", ValueShape::Float4), Ok(PbrProperty::BaseColor));
    assert_eq!(pbr_update("perceptual_roughness", ValueShape::Float), Ok(PbrProperty::Roughness));
    assert_eq!(pbr_update("alpha_mode", ValueShape::Int), Ok(PbrProperty::AlphaMode));
    assert_eq!(
        pbr_update("metallic", ValueShape::Float4),
        Err(ProcessingError::InvalidArgument(InvalidArgument::PropertyKindMismatch))
    );
    assert_eq!(pbr_update("shininess", ValueShape::Float), Err(ProcessingError::UnknownMaterialProperty));
}

#[test]
fn alpha_modes_by_number() {
    assert_eq!(alpha_mode_from_int(1), Ok(AlphaMode::Mask));
    assert_eq!(alpha_mode_from_int(5), Ok(AlphaMode::Multiply));
    assert_eq!(
        alpha_mode_from_int(6),
        Err(ProcessingError::InvalidArgument(InvalidArgument::UnknownAlphaMode(6)))
    );
    assert_eq!(
        alpha_mode_from_int(-1),
        Err(ProcessingError::InvalidArgument(InvalidArgument::UnknownAlphaMode(-1)))
    );
}

#[test]
fn particle_buffers_switch_the_backing() {
    let buf = EntityId(7);
    let b = set_particles_buffer(MaterialBacking::Default, ParticlesBufferSlot::Emissive, buf).unwrap();
    assert_eq!(b, MaterialBacking::Particles { colors: None, emissive_colors: Some(buf) });
    let b = set_particles_buffer(b, ParticlesBufferSlot::Albedo, EntityId(8)).unwrap();
    assert_eq!(
        b,
        MaterialBacking::Particles { colors: Some(EntityId(8)), emissive_colors: Some(buf) }
    );
    assert_eq!(set_albedo_color(b), Ok(MaterialBacking::Default));
}

#[test]
fn custom_materials_take_neither() {
    assert_eq!(set_albedo_color(MaterialBacking::Custom), Err(ProcessingError::MaterialNotFound));
    assert_eq!(
        set_particles_buffer(MaterialBacking::Custom, ParticlesBufferSlot::Albedo, EntityId(1)),
        Err(ProcessingError::MaterialNotFound)
    );
}

#[test]
fn buffer_slots_set_in_either_order_agree() {
    let a = EntityId(1);
    let e = EntityId(2);
    let x = set_particles_buffer(MaterialBacking::Default, ParticlesBufferSlot::Albedo, a).unwrap();
    let x = set_particles_buffer(x, ParticlesBufferSlot::Emissive, e).unwrap();
    let y = set_particles_buffer(MaterialBacking::Default, ParticlesBufferSlot::Emissive, e).unwrap();
    let y = set_particles_buffer(y, ParticlesBufferSlot::Albedo, a).unwrap();
    assert_eq!(x, y);
}
