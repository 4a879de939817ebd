use processing_render::particles::pack::{
    can_pack, pack_dispatch_count, pack_layout_entries, shader_defs_for, PackAccess, PackFeature,
    PackPipelineKey,
};

#[test]
fn pack_layout_has_optional_bindings_in_order() {
    let key = PackPipelineKey { has_rotation: false, has_scale: true, has_life: true };
    assert_eq!(
        pack_layout_entries(key),
        vec![
            (0, PackAccess::ReadWrite),
            (1, PackAccess::ReadWrite),
            (2, PackAccess::ReadOnly),
            (4, PackAccess::ReadOnly),
            (5, PackAccess::ReadOnly),
            (6, PackAccess::Uniform),
        ]
    );
    assert_eq!(shader_defs_for(key), vec![PackFeature::Scale, PackFeature::Life]);
}

#[test]
fn packing_waits_for_every_buffer_its_key_reads() {
    let key = PackPipelineKey { has_rotation: true, has_scale: false, has_life: false };
    assert!(can_pack(key, true, false, false));
    assert!(!can_pack(key, false, true, true));
}

#[test]
fn pack_dispatch_rounds_up() {
    assert_eq!(pack_dispatch_count(0), 0);
    assert_eq!(pack_dispatch_count(64), 1);
    assert_eq!(pack_dispatch_count(65), 2);
}
