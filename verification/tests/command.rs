use processing_render::error::{InvalidArgument, ProcessingError};
use processing_render::render::command::{
    custom_blend_state, ArcMode, BlendComponent, BlendFactor, BlendMode, BlendOperation, BlendState,
    ShapeKind, ShapeMode, StrokeCapMode, StrokeJoinMode, TextAlignH, TextAlignV, TextStyle,
    TextWrapMode,
};

#[test]
fn settings_decode_by_number_with_default_fallback() {
    assert_eq!(TextAlignH::from(2u8), TextAlignH::Right);
    assert_eq!(TextAlignH::from(9u8), TextAlignH::Left);
    assert_eq!(TextAlignV::from(3u8), TextAlignV::Bottom);
    assert_eq!(TextAlignV::from(200u8), TextAlignV::Baseline);
    assert_eq!(TextWrapMode::from(1u8), TextWrapMode::Char);
    assert_eq!(TextStyle::from(3u8), TextStyle::BoldItalic);
    assert_eq!(StrokeCapMode::from(2u8), StrokeCapMode::Project);
    assert_eq!(StrokeJoinMode::from(1u8), StrokeJoinMode::Miter);
    assert_eq!(ArcMode::from(2u8), ArcMode::Pie);
    assert_eq!(ShapeMode::from(1u8), ShapeMode::Corners);
    assert_eq!(ShapeKind::from(7u8), ShapeKind::QuadStrip);
    assert_eq!(ShapeKind::from(8u8), ShapeKind::Polygon);
    assert_eq!(ShapeMode::default(), ShapeMode::Corner);
}

#[test]
fn settings_parse_names_ignoring_case() {
    assert_eq!(TextAlignH::parse("CENTER"), Some(TextAlignH::Center));
    assert_eq!(TextAlignH::parse("Left"), Some(TextAlignH::Left));
    assert_eq!(TextAlignH::parse("middle"), None);
    assert_eq!(TextAlignV::parse("baseline"), Some(TextAlignV::Baseline));
    assert_eq!(TextStyle::parse("Bold_Italic"), Some(TextStyle::BoldItalic));
    assert_eq!(StrokeJoinMode::parse("ROUND"), Some(StrokeJoinMode::Round));
    assert_eq!(ArcMode::parse("chord"), Some(ArcMode::Chord));
    assert_eq!(ShapeMode::parse("Corners"), Some(ShapeMode::Corners));
    assert_eq!(ShapeKind::parse("TRIANGLE_STRIP"), Some(ShapeKind::TriangleStrip));
    assert_eq!(ShapeKind::parse("triangle"), None);
    assert_eq!(TextWrapMode::parse(""), None);
}

#[test]
fn blend_mode_numbers_decode_and_reject() {
    assert_eq!(BlendMode::try_from(0u8), Ok(BlendMode::Blend));
    assert_eq!(BlendMode::try_from(9u8), Ok(BlendMode::Replace));
    assert_eq!(
        BlendMode::try_from(10u8),
        Err(ProcessingError::InvalidArgument(InvalidArgument::UnknownBlendMode(10)))
    );
}

#[test]
fn blend_mode_names_round_trip() {
    let all = [
        BlendMode::Blend,
        BlendMode::Add,
        BlendMode::Subtract,
        BlendMode::Darkest,
        BlendMode::Lightest,
        BlendMode::Difference,
        BlendMode::Exclusion,
        BlendMode::Multiply,
        BlendMode::Screen,
        BlendMode::Replace,
    ];
    for m in all {
        assert_eq!(BlendMode::from_name(m.name()), Some(m));
    }
    assert_eq!(BlendMode::Difference.name(), "DIFFERENCE");
    assert_eq!(BlendMode::from_name("add"), None);
}

fn comp(s: BlendFactor, d: BlendFactor, op: BlendOperation) -> BlendComponent {
    BlendComponent { src_factor: s, dst_factor: d, operation: op }
}

#[test]
fn blend_states_of_modes() {
    assert_eq!(BlendMode::Blend.to_blend_state(), None);
    assert_eq!(
        BlendMode::Add.to_blend_state(),
        Some(BlendState { color: comp(BlendFactor::SrcAlpha, BlendFactor::One, BlendOperation::Add), alpha: comp(BlendFactor::One, BlendFactor::One, BlendOperation::Add) })
    );
    assert_eq!(
        BlendMode::Exclusion.to_blend_state(),
        Some(BlendState {
            color: comp(BlendFactor::OneMinusDst, BlendFactor::OneMinusSrc, BlendOperation::Add),
            alpha: comp(BlendFactor::One, BlendFactor::OneMinusSrcAlpha, BlendOperation::Add),
        })
    );
    assert_eq!(
        BlendMode::Difference.to_blend_state(),
        Some(BlendState { color: comp(BlendFactor::One, BlendFactor::One, BlendOperation::ReverseSubtract), alpha: comp(BlendFactor::One, BlendFactor::One, BlendOperation::Max) })
    );
    assert_eq!(
        BlendMode::Replace.to_blend_state(),
        Some(BlendState { color: comp(BlendFactor::One, BlendFactor::Zero, BlendOperation::Add), alpha: comp(BlendFactor::One, BlendFactor::Zero, BlendOperation::Add) })
    );
}

#[test]
fn custom_blend_state_decodes_or_reports_first_unknown() {
    assert_eq!(
        custom_blend_state(4, 5, 0, 1, 0, 4),
        Ok(BlendState {
            color: comp(BlendFactor::SrcAlpha, BlendFactor::OneMinusSrcAlpha, BlendOperation::Add),
            alpha: comp(BlendFactor::One, BlendFactor::Zero, BlendOperation::Max),
        })
    );
    assert_eq!(
        custom_blend_state(11, 0, 9, 0, 0, 0),
        Err(ProcessingError::InvalidArgument(InvalidArgument::UnknownBlendFactor(11)))
    );
    assert_eq!(
        custom_blend_state(0, 0, 5, 0, 0, 0),
        Err(ProcessingError::InvalidArgument(InvalidArgument::UnknownBlendOperation(5)))
    );
    assert_eq!(
        custom_blend_state(0, 0, 0, 0, 12, 7),
        Err(ProcessingError::InvalidArgument(InvalidArgument::UnknownBlendFactor(12)))
    );
}
