//! Color spaces of the color mode, and what their channels mean.
use vstd::prelude::*;

verus! {

/// The color space that fill/stroke channel values are given in.
#[derive(Debug, Clone, Copy, PartialEq, Eq, Structural)]
pub enum ColorSpace {
    Srgb,
    Linear,
    Hsl,
    Hsv,
    Hwb,
    Oklab,
    Oklch,
    Lab,
    Lch,
    Xyz,
}

/// The space numbered `v` (`0..=9`, in declaration order).
pub open spec fn color_space_of(v: u8) -> Option<ColorSpace> {
    if v == 0 {
        Some(ColorSpace::Srgb)
    } else if v == 1 {
        Some(ColorSpace::Linear)
    } else if v == 2 {
        Some(ColorSpace::Hsl)
    } else if v == 3 {
        Some(ColorSpace::Hsv)
    } else if v == 4 {
        Some(ColorSpace::Hwb)
    } else if v == 5 {
        Some(ColorSpace::Oklab)
    } else if v == 6 {
        Some(ColorSpace::Oklch)
    } else if v == 7 {
        Some(ColorSpace::Lab)
    } else if v == 8 {
        Some(ColorSpace::Lch)
    } else if v == 9 {
        Some(ColorSpace::Xyz)
    } else {
        None
    }
}

/// The native range of each channel of `space` (three color channels, then
/// alpha): hues run to `360`, Lab lightness to `100`, everything else to `1`.
pub open spec fn native_maxes(space: ColorSpace) -> Seq<u16> {
    match space {
        ColorSpace::Srgb | ColorSpace::Linear | ColorSpace::Oklab | ColorSpace::Xyz => seq![1u16, 1, 1, 1],
        ColorSpace::Hsl | ColorSpace::Hsv | ColorSpace::Hwb => seq![360u16, 1, 1, 1],
        ColorSpace::Oklch => seq![1u16, 1, 360, 1],
        ColorSpace::Lab => seq![100u16, 1, 1, 1],
        ColorSpace::Lch => seq![100u16, 1, 360, 1],
    }
}

/// Where a gray level goes in `space`.
pub open spec fn gray_channels_of(space: ColorSpace) -> GrayChannels {
    match space {
        ColorSpace::Srgb | ColorSpace::Linear | ColorSpace::Xyz => GrayChannels::All,
        ColorSpace::Hsl | ColorSpace::Hsv | ColorSpace::Hwb => GrayChannels::Third,
        _ => GrayChannels::First,
    }
}

/// Which channels a gray level goes to.
#[derive(Debug, Clone, Copy, PartialEq, Eq, Structural)]
pub enum GrayChannels {
    /// All three channels take the level (RGB-like spaces).
    All,
    /// Only the third channel (lightness / value / whiteness) takes it.
    Third,
    /// Only the first channel (lightness) takes it; the others are zero.
    First,
}

impl ColorSpace {
    /// The space numbered `v`, if any.
    pub fn from_u8(v: u8) -> (r: Option<Self>)
        ensures
            r == color_space_of(v),
    {
        match v {
            0 => Some(ColorSpace::Srgb),
            1 => Some(ColorSpace::Linear),
            2 => Some(ColorSpace::Hsl),
            3 => Some(ColorSpace::Hsv),
            4 => Some(ColorSpace::Hwb),
            5 => Some(ColorSpace::Oklab),
            6 => Some(ColorSpace::Oklch),
            7 => Some(ColorSpace::Lab),
            8 => Some(ColorSpace::Lch),
            9 => Some(ColorSpace::Xyz),
            _ => None,
        }
    }

    /// The native range of each channel (three color channels, then alpha).
    pub fn default_maxes(&self) -> (r: [u16; 4])
        ensures
            r@ == native_maxes(*self),
    {
        let r: [u16; 4] = match self {
            ColorSpace::Srgb | ColorSpace::Linear | ColorSpace::Oklab | ColorSpace::Xyz => [
                1,
                1,
                1,
                1,
            ],
            ColorSpace::Hsl | ColorSpace::Hsv | ColorSpace::Hwb => [360, 1, 1, 1],
            ColorSpace::Oklch => [1, 1, 360, 1],
            ColorSpace::Lab => [100, 1, 1, 1],
            ColorSpace::Lch => [100, 1, 360, 1],
        };
        assert(r@ =~= native_maxes(*self));
        r
    }

    /// Where a gray level goes in this space.
    pub fn gray_channels(self) -> (r: GrayChannels)
        ensures
            r == gray_channels_of(self),
    {
        match self {
            ColorSpace::Srgb | ColorSpace::Linear | ColorSpace::Xyz => GrayChannels::All,
            ColorSpace::Hsl | ColorSpace::Hsv | ColorSpace::Hwb => GrayChannels::Third,
            ColorSpace::Oklab | ColorSpace::Lab | ColorSpace::Oklch | ColorSpace::Lch => GrayChannels::First,
        }
    }
}

/// What each color space's channels mean: every channel runs to one but
/// the hue, which runs to `360` (first in HSL, HSV and HWB, third in OKLCH
/// and LCH), and the Lab and LCH lightness, which runs to `100`; alpha always
/// runs to one. A gray level fills all three channels of the RGB-like
/// spaces (sRGB, linear, XYZ), the last one of HSL, HSV and HWB, and the
/// first of the Lab-like spaces. The spaces are numbered `0..=9` in that
/// order: sRGB, linear, HSL, HSV, HWB, OKLab, OKLCH, Lab, LCH, XYZ.
pub proof fn lemma_color_space_channels(space: ColorSpace, v: u8)
    ensures
        native_maxes(space).len() == 4,
        native_maxes(space)[3] == 1,
        native_maxes(space)[1] == 1,
        native_maxes(space)[0] == (if space == ColorSpace::Hsl || space == ColorSpace::Hsv || space
            == ColorSpace::Hwb {
            360u16
        } else if space == ColorSpace::Lab || space == ColorSpace::Lch {
            100u16
        } else {
            1u16
        }),
        native_maxes(space)[2] == (if space == ColorSpace::Oklch || space == ColorSpace::Lch {
            360u16
        } else {
            1u16
        }),
        (space == ColorSpace::Srgb || space == ColorSpace::Linear || space == ColorSpace::Xyz) <==> gray_channels_of(space) == GrayChannels::All,
        (space == ColorSpace::Hsl || space == ColorSpace::Hsv || space == ColorSpace::Hwb) <==> gray_channels_of(space) == GrayChannels::Third,
        (space == ColorSpace::Oklab || space == ColorSpace::Oklch || space == ColorSpace::Lab || space == ColorSpace::Lch) <==> gray_channels_of(space) == GrayChannels::First,
        v == 0 ==> color_space_of(v) == Some(ColorSpace::Srgb),
        v == 1 ==> color_space_of(v) == Some(ColorSpace::Linear),
        v == 2 ==> color_space_of(v) == Some(ColorSpace::Hsl),
        v == 3 ==> color_space_of(v) == Some(ColorSpace::Hsv),
        v == 4 ==> color_space_of(v) == Some(ColorSpace::Hwb),
        v == 5 ==> color_space_of(v) == Some(ColorSpace::Oklab),
        v == 6 ==> color_space_of(v) == Some(ColorSpace::Oklch),
        v == 7 ==> color_space_of(v) == Some(ColorSpace::Lab),
        v == 8 ==> color_space_of(v) == Some(ColorSpace::Lch),
        v == 9 ==> color_space_of(v) == Some(ColorSpace::Xyz),
        v > 9 ==> color_space_of(v) is None,
{
}

/// Every space has a number, and decoding it gives the space back.
pub proof fn lemma_color_space_numbers_roundtrip(c: ColorSpace)
    ensures
        exists|v: u8| v <= 9 && #[trigger] color_space_of(v) == Some(c),
{
    match c {
        ColorSpace::Srgb => assert(color_space_of(0) == Some(c)),
        ColorSpace::Linear => assert(color_space_of(1) == Some(c)),
        ColorSpace::Hsl => assert(color_space_of(2) == Some(c)),
        ColorSpace::Hsv => assert(color_space_of(3) == Some(c)),
        ColorSpace::Hwb => assert(color_space_of(4) == Some(c)),
        ColorSpace::Oklab => assert(color_space_of(5) == Some(c)),
        ColorSpace::Oklch => assert(color_space_of(6) == Some(c)),
        ColorSpace::Lab => assert(color_space_of(7) == Some(c)),
        ColorSpace::Lch => assert(color_space_of(8) == Some(c)),
        ColorSpace::Xyz => assert(color_space_of(9) == Some(c)),
    }
}

} // verus!
