use processing_render::arith::{div_ceil_u32, div_ceil_u64};
use processing_render::bytes::{
    bytes_eq, str_is, str_is_ignore_ascii_case, tile_seed, u32_from_le_bytes, u32_to_le_bytes,
    u32s_to_bytes,
};
use processing_render::color::{ColorSpace, GrayChannels};
use processing_render::noise::{octave_count, NoiseDistance, NoiseKind, WorleyMode};

#[test]
fn ceiling_division() {
    assert_eq!(div_ceil_u32(0, 64), 0);
    assert_eq!(div_ceil_u32(65, 64), 2);
    assert_eq!(div_ceil_u32(u32::MAX, 2), 0x8000_0000);
    assert_eq!(div_ceil_u64(10, 3), 4);
}

#[test]
fn byte_helpers() {
    assert!(bytes_eq(&[1, 2], &[1, 2]));
    assert!(!bytes_eq(&[1, 2], &[1, 2, 3]));
    assert!(str_is("abc", b"abc"));
    assert!(str_is_ignore_ascii_case("AbC", b"abc"));
    assert!(!str_is_ignore_ascii_case("abd", b"abc"));
    assert_eq!(u32_to_le_bytes(0x0102_0304), [4, 3, 2, 1]);
    assert_eq!(u32_from_le_bytes(&[4, 3, 2, 1, 9]), 0x0102_0304);
    assert_eq!(u32s_to_bytes(&[1, 256]), vec![1, 0, 0, 0, 0, 1, 0, 0]);
    assert_eq!(tile_seed(&[7, 8], 3), vec![7, 8, 7, 8, 7, 8]);
}

#[test]
fn color_spaces_by_number() {
    assert_eq!(ColorSpace::from_u8(0), Some(ColorSpace::Srgb));
    assert_eq!(ColorSpace::from_u8(9), Some(ColorSpace::Xyz));
    assert_eq!(ColorSpace::from_u8(10), None);
    assert_eq!(ColorSpace::Hsl.default_maxes(), [360, 1, 1, 1]);
    assert_eq!(ColorSpace::Lch.default_maxes(), [100, 1, 360, 1]);
    assert_eq!(ColorSpace::Hsv.gray_channels(), GrayChannels::Third);
    assert_eq!(ColorSpace::Oklab.gray_channels(), GrayChannels::First);
}

#[test]
fn noise_settings_by_number() {
    assert_eq!(NoiseKind::from(3u8), NoiseKind::Worley);
    assert_eq!(NoiseKind::from(4u8), NoiseKind::Perlin);
    assert_eq!(NoiseDistance::from(2u8), NoiseDistance::Chebyshev);
    assert_eq!(WorleyMode::default(), WorleyMode::Nearest);
    assert_eq!(octave_count(0), 1);
    assert_eq!(octave_count(6), 6);
}
