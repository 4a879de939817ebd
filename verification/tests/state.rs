use processing_render::entity::EntityId;
use processing_render::render::command::{BlendMode, ShapeKind, TextAlignH, TextAlignV, TextDirection};
use processing_render::render::filter::filter_passes;
use processing_render::render::material_key::{key_with_color, needs_batch, MaterialKey};
use processing_render::render::state::{FontChoice, RenderState, StateCommand, StateDefaults};

type State = RenderState<[f32; 4], f32, u32, (f32, f32)>;
type Cmd = StateCommand<[f32; 4], f32, u32, (f32, f32)>;

const WHITE: [f32; 4] = [1.0, 1.0, 1.0, 1.0];
const BLACK: [f32; 4] = [0.0, 0.0, 0.0, 1.0];

fn defaults() -> StateDefaults<[f32; 4], f32, u32> {
    StateDefaults { fill: WHITE, stroke: BLACK, stroke_weight: 1.0, text_size: 12.0, identity: 0 }
}

#[test]
fn fresh_state_defaults() {
    let s: State = RenderState::new(defaults());
    assert_eq!(s.fill_color, Some(WHITE));
    assert_eq!(s.stroke_color, Some(BLACK));
    assert_eq!(s.text_size, 12.0);
    assert_eq!(s.text_align_h, TextAlignH::Left);
    assert_eq!(s.text_align_v, TextAlignV::Baseline);
    assert!(s.shape_builder.is_none());
}

#[test]
fn fill_color_and_fill_buffer_exclude_each_other() {
    let mut s: State = RenderState::new(defaults());
    s.apply(Cmd::FillBuffer(EntityId(3)));
    assert_eq!(s.fill_color, None);
    assert_eq!(s.fill_buffer, Some(EntityId(3)));
    s.apply(Cmd::Fill(BLACK));
    assert_eq!(s.fill_color, Some(BLACK));
    assert_eq!(s.fill_buffer, None);
    s.apply(Cmd::NoFill);
    assert_eq!((s.fill_color, s.fill_buffer), (None, None));
}

#[test]
fn text_size_clears_leading() {
    let mut s: State = RenderState::new(defaults());
    s.apply(Cmd::TextLeading(20.0));
    assert_eq!(s.text_leading, Some(20.0));
    s.apply(Cmd::TextSize(30.0));
    assert_eq!(s.text_size, 30.0);
    assert_eq!(s.text_leading, None);
}

#[test]
fn matrix_push_set_pop_restores() {
    let mut s: State = RenderState::new(defaults());
    s.apply(Cmd::SetMatrix(4));
    s.apply(Cmd::PushMatrix);
    s.apply(Cmd::SetMatrix(9));
    assert_eq!(s.transform.current(), 9);
    s.apply(Cmd::PopMatrix);
    assert_eq!(s.transform.current(), 4);
    s.apply(Cmd::ResetMatrix(0));
    assert_eq!(s.transform.current(), 0);
}

#[test]
fn shapes_collect_vertices_until_end_shape() {
    let mut s: State = RenderState::new(defaults());
    assert!(s.apply(Cmd::ShapeVertex((1.0, 1.0))).is_none());
    assert!(s.shape_builder.is_none());
    s.apply(Cmd::BeginShape(ShapeKind::Triangles));
    s.apply(Cmd::ShapeVertex((0.0, 0.0)));
    s.apply(Cmd::BeginContour);
    s.apply(Cmd::ShapeVertex((5.0, 5.0)));
    s.apply(Cmd::EndContour);
    s.apply(Cmd::ShapeVertex((1.0, 0.0)));
    let shape = s.apply(Cmd::EndShape).unwrap();
    assert_eq!(shape.kind, ShapeKind::Triangles);
    assert_eq!(shape.contours[0].vertices, vec![(0.0, 0.0), (1.0, 0.0)]);
    assert_eq!(shape.contours[1].vertices, vec![(5.0, 5.0)]);
    assert!(s.shape_builder.is_none());
    assert!(s.apply(Cmd::EndShape).is_none());
}

#[test]
fn text_features_and_variations() {
    let mut s: State = RenderState::new(defaults());
    s.apply(Cmd::TextFeature(*b"liga", 0));
    s.apply(Cmd::TextFeature(*b"kern", 1));
    s.apply(Cmd::TextFeature(*b"liga", 1));
    assert_eq!(s.text_features, vec![(*b"liga", 1), (*b"kern", 1)]);
    s.apply(Cmd::NoTextFeature(*b"liga"));
    assert_eq!(s.text_features, vec![(*b"kern", 1)]);
    s.apply(Cmd::TextVariation(*b"wght", 700.0));
    s.apply(Cmd::ClearTextVariations);
    assert!(s.text_variations.is_empty());
    s.apply(Cmd::ClearTextFeatures);
    assert!(s.text_features.is_empty());
}

#[test]
fn blend_mode_and_frame_start() {
    let mut s: State = RenderState::new(defaults());
    s.apply(Cmd::BlendMode(BlendMode::Add.to_blend_state()));
    assert!(s.blend_state.is_some());
    s.apply(Cmd::PushMatrix);
    s.apply(Cmd::BeginShape(ShapeKind::Polygon));
    s.begin_frame(0);
    assert!(s.shape_builder.is_none());
    assert!(s.blend_state.is_some());
    s.apply(Cmd::SetMatrix(3));
    s.apply(Cmd::PopMatrix);
    assert_eq!(s.transform.current(), 3);
    s.reset(defaults());
    assert!(s.blend_state.is_none());
}

#[test]
fn material_commands_set_the_key() {
    let mut s: State = RenderState::new(defaults());
    assert_eq!(s.material_key, MaterialKey::Color { transparent: false, blend_state: None });
    s.apply(Cmd::Roughness(10));
    assert_eq!(
        s.material_key,
        MaterialKey::Pbr {
            albedo: [255, 255, 255, 255],
            roughness: 10,
            metallic: 0,
            emissive: [0, 0, 0, 0],
            blend_state: None
        }
    );
    s.apply(Cmd::Metallic(200));
    s.apply(Cmd::Emissive([1, 2, 3, 4]));
    assert_eq!(
        s.material_key,
        MaterialKey::Pbr {
            albedo: [255, 255, 255, 255],
            roughness: 10,
            metallic: 200,
            emissive: [1, 2, 3, 4],
            blend_state: None
        }
    );
    s.apply(Cmd::Unlit(true));
    assert_eq!(s.material_key, MaterialKey::Color { transparent: true, blend_state: None });
    s.apply(Cmd::Material(EntityId(9)));
    assert_eq!(s.material_key, MaterialKey::Custom { entity: EntityId(9), blend_state: None });
}

#[test]
fn font_direction_and_glyph_colors() {
    let mut s: State = RenderState::new(defaults());
    s.apply(Cmd::TextFont(FontChoice::Found(String::from("Noto Sans"))));
    assert_eq!(s.text_font_family.as_deref(), Some("Noto Sans"));
    s.apply(Cmd::TextFont(FontChoice::Missing));
    assert_eq!(s.text_font_family.as_deref(), Some("Noto Sans"));
    s.apply(Cmd::TextFont(FontChoice::Default));
    assert_eq!(s.text_font_family, None);
    s.apply(Cmd::TextDirection(TextDirection::from(2u8)));
    assert_eq!(s.text_direction, TextDirection::RightToLeft);
    s.apply(Cmd::TextGlyphColors(vec![WHITE, BLACK]));
    assert_eq!(s.take_glyph_colors(), Some(vec![WHITE, BLACK]));
    assert_eq!(s.take_glyph_colors(), None);
}

#[test]
fn draws_batch_by_key_transform_and_blend() {
    let k = MaterialKey::Color { transparent: false, blend_state: None };
    assert!(needs_batch(&None, &k, false, false));
    assert!(!needs_batch(&Some(k), &k, false, false));
    assert!(needs_batch(&Some(k), &k, true, false));
    assert!(needs_batch(&Some(k), &k, false, true));
    let p = key_with_color(&k, true, [1, 2, 3, 4], None);
    assert_eq!(p, MaterialKey::Color { transparent: true, blend_state: None });
    assert!(needs_batch(&Some(k), &p, false, false));
    let pbr = MaterialKey::Pbr { albedo: [0; 4], roughness: 1, metallic: 2, emissive: [3; 4], blend_state: None };
    assert_eq!(
        key_with_color(&pbr, true, [9, 9, 9, 9], None),
        MaterialKey::Pbr { albedo: [9; 4], roughness: 1, metallic: 2, emissive: [3; 4], blend_state: None }
    );
    assert_eq!(pbr.as_pbr().roughness, 1);
    assert_eq!(k.blend_state(), None);
}

#[test]
fn filters_run_at_least_one_pass() {
    assert_eq!(filter_passes(0), 1);
    assert_eq!(filter_passes(3), 3);
}
