use processing_render::entity::EntityId;
use processing_render::error::{InvalidArgument, ProcessingError};
use processing_render::geometry::attribute::{
    clamp_range, create, default_attribute_init, get_element, get_elements, set_element,
    AttributeFormat, AttributeRegistry, AttributeResolution, BuiltinAttributes,
};
use processing_render::geometry::layout::{hash_attr_name, VertexLayout};
use processing_render::geometry::{vertex_plan, Topology};

fn builtins() -> BuiltinAttributes {
    BuiltinAttributes {
        position: EntityId(1),
        normal: EntityId(2),
        color: EntityId(3),
        uv: EntityId(4),
        rotation: EntityId(5),
        scale: EntityId(6),
        life: EntityId(7),
        velocity: EntityId(8),
        age: EntityId(9),
    }
}

#[test]
fn builtin_defaults_match_format() {
    let builtins = [
        ("position", AttributeFormat::Float3),
        ("normal", AttributeFormat::Float3),
        ("color", AttributeFormat::Float4),
        ("uv", AttributeFormat::Float2),
        ("rotation", AttributeFormat::Float4),
        ("scale", AttributeFormat::Float3),
        ("life", AttributeFormat::Float),
        ("velocity", AttributeFormat::Float3),
        ("age", AttributeFormat::Float),
    ];
    for (name, format) in builtins {
        assert_eq!(
            default_attribute_init(name, format).len(),
            format.components(),
            "default_attribute_init({name:?}) does not match {format:?} component count",
        );
    }
}

#[test]
fn unknown_name_seeds_zero_for_its_format() {
    for format in [
        AttributeFormat::Float,
        AttributeFormat::Float2,
        AttributeFormat::Float3,
        AttributeFormat::Float4,
    ] {
        let seed = default_attribute_init("custom_thing", format);
        assert_eq!(seed.len(), format.components());
        assert!(seed.iter().all(|&f| f32::from_bits(f) == 0.0));
    }
}

#[test]
fn conventional_defaults_hold_their_values() {
    let one = 1.0f32.to_bits();
    assert_eq!(default_attribute_init("color", AttributeFormat::Float4), vec![one; 4]);
    assert_eq!(default_attribute_init("rotation", AttributeFormat::Float4), vec![0, 0, 0, one]);
    assert_eq!(default_attribute_init("life", AttributeFormat::Float), vec![one]);
}

#[test]
fn formats_and_topologies_by_number() {
    assert_eq!(AttributeFormat::from_u8(3), Some(AttributeFormat::Float3));
    assert_eq!(AttributeFormat::from_u8(0), None);
    assert_eq!(AttributeFormat::Float3.byte_size(), 12);
    assert_eq!(Topology::from_u8(4), Some(Topology::TriangleStrip));
    assert_eq!(Topology::from_u8(5), None);
}

#[test]
fn attribute_names_hash_with_fnv1a() {
    assert_eq!(hash_attr_name(""), 0xcbf2_9ce4_8422_2325);
    assert_eq!(hash_attr_name("a"), 0xaf63_dc4c_8601_ec8c);
}

#[test]
fn creating_attributes_resolves_builtins_registered_and_new_names() {
    let b = builtins();
    let mut reg = AttributeRegistry::new();
    assert_eq!(
        create(&reg, &b, "normal", AttributeFormat::Float3),
        Ok(AttributeResolution::Existing(EntityId(2)))
    );
    let id = hash_attr_name("mass");
    assert_eq!(create(&reg, &b, "mass", AttributeFormat::Float), Ok(AttributeResolution::Spawn { id }));
    reg.register(id, EntityId(40), AttributeFormat::Float);
    assert_eq!(
        create(&reg, &b, "mass", AttributeFormat::Float),
        Ok(AttributeResolution::Existing(EntityId(40)))
    );
    assert_eq!(
        create(&reg, &b, "mass", AttributeFormat::Float2),
        Err(ProcessingError::InvalidArgument(InvalidArgument::AttributeRedeclared))
    );
    assert_eq!(b.by_name("age"), Some(EntityId(9)));
    assert_eq!(b.by_name("Age"), None);
}

#[test]
fn layouts_hold_each_attribute_once() {
    let mut layout = VertexLayout::new();
    layout.push(EntityId(1));
    layout.push(EntityId(5));
    layout.push(EntityId(1));
    assert_eq!(layout.attributes(), &[EntityId(1), EntityId(5)]);
    assert!(layout.has_attribute(EntityId(5)));
    assert!(!layout.has_attribute(EntityId(6)));
}

#[test]
fn vertex_plans_follow_the_layout() {
    let layout = VertexLayout::with_attributes(vec![
        EntityId(1),
        EntityId(3),
        EntityId(50),
        EntityId(4),
        EntityId(51),
    ]);
    let plan = vertex_plan(&layout, &builtins());
    assert!(!plan.normal);
    assert!(plan.color);
    assert!(plan.uv);
    assert_eq!(plan.custom, vec![EntityId(50), EntityId(51)]);
}

#[test]
fn element_access_checks_bounds() {
    let mut v = vec![10u32, 20, 30];
    assert_eq!(get_element(&v, 1), Ok(20));
    assert_eq!(
        get_element(&v, 3),
        Err(ProcessingError::InvalidArgument(InvalidArgument::IndexOutOfBounds {
            index: 3,
            available: 3
        }))
    );
    assert_eq!(set_element(&mut v, 2, 99), Ok(()));
    assert_eq!(v, vec![10, 20, 99]);
    assert!(set_element(&mut v, 7, 1).is_err());
    assert_eq!(v, vec![10, 20, 99]);
}

#[test]
fn element_ranges_are_clipped() {
    let v = vec![1u8, 2, 3, 4];
    assert_eq!(get_elements(&v, 1, 3), vec![2, 3]);
    assert_eq!(get_elements(&v, 2, 100), vec![3, 4]);
    assert_eq!(get_elements(&v, 9, 12), Vec::<u8>::new());
    assert_eq!(clamp_range(5, 2, 3), (3, 2));
}
