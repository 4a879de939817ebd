use processing_render::entity::EntityId;
use processing_render::shader_value::ShaderValue;

#[test]
fn float_values_encode_their_bits_little_endian() {
    let v = ShaderValue::Float(1.0f32.to_bits());
    assert_eq!(v.to_bytes(), Some(1.0f32.to_le_bytes().to_vec()));
    assert_eq!(v.byte_size(), Some(4));
}

#[test]
fn integer_vectors_encode_each_component() {
    let v = ShaderValue::Int2([-1, 2]);
    assert_eq!(v.to_bytes(), Some(vec![0xff, 0xff, 0xff, 0xff, 2, 0, 0, 0]));
    assert_eq!(ShaderValue::UInt(0x0403_0201).to_bytes(), Some(vec![1, 2, 3, 4]));
    assert_eq!(ShaderValue::Mat4([0; 16]).byte_size(), Some(64));
}

#[test]
fn resources_have_no_bytes() {
    assert_eq!(ShaderValue::Texture(EntityId(1)).to_bytes(), None);
    assert_eq!(ShaderValue::Buffer(EntityId(1)).byte_size(), None);
    assert_eq!(ShaderValue::Buffer(EntityId(1)).read_from_bytes(&[]), None);
}

#[test]
fn values_read_back_from_their_bytes() {
    let values = [
        ShaderValue::Float3([1.5f32.to_bits(), (-2.0f32).to_bits(), 0]),
        ShaderValue::Int4([i32::MIN, -7, 0, i32::MAX]),
        ShaderValue::UInt(u32::MAX),
        ShaderValue::Mat4([3; 16]),
    ];
    for v in values {
        let bytes = v.to_bytes().unwrap();
        assert_eq!(v.read_from_bytes(&bytes), Some(v));
    }
}

#[test]
fn reading_uses_only_the_leading_bytes() {
    let like = ShaderValue::Int(0);
    assert_eq!(like.read_from_bytes(&[5, 0, 0, 0, 9, 9]), Some(ShaderValue::Int(5)));
}
