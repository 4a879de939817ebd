//! Noise source settings that arrive as small integers.
use vstd::prelude::*;
use vstd::std_specs::convert::FromSpecImpl;

verus! {

/// The noise algorithm of a noise source.
#[derive(Debug, Clone, Copy, PartialEq, Eq, Structural)]
pub enum NoiseKind {
    /// Output in `[-1, 1]`.
    Perlin,
    /// Output in `[-1, 1]`.
    Simplex,
    /// Output in `[0, 1]`.
    Value,
    /// Output in `[0, 1]`.
    Worley,
}

/// The kind numbered `v`; unknown numbers give the default, Perlin.
pub open spec fn noise_kind_of(v: u8) -> NoiseKind {
    if v == 1 {
        NoiseKind::Simplex
    } else if v == 2 {
        NoiseKind::Value
    } else if v == 3 {
        NoiseKind::Worley
    } else {
        NoiseKind::Perlin
    }
}

impl From<u8> for NoiseKind {
    fn from(v: u8) -> (r: Self) {
        match v {
            0 => NoiseKind::Perlin,
            1 => NoiseKind::Simplex,
            2 => NoiseKind::Value,
            3 => NoiseKind::Worley,
            _ => NoiseKind::Perlin,
        }
    }
}

impl FromSpecImpl<u8> for NoiseKind {
    open spec fn obeys_from_spec() -> bool {
        true
    }

    open spec fn from_spec(v: u8) -> Self {
        noise_kind_of(v)
    }
}

impl Default for NoiseKind {
    fn default() -> (r: Self)
        ensures
            r == NoiseKind::Perlin,
    {
        NoiseKind::Perlin
    }
}

/// The distance metric of Worley noise.
#[derive(Debug, Clone, Copy, PartialEq, Eq, Structural)]
pub enum NoiseDistance {
    Euclidean,
    Manhattan,
    Chebyshev,
}

/// The metric numbered `v`; unknown numbers give the default, Euclidean.
pub open spec fn noise_distance_of(v: u8) -> NoiseDistance {
    if v == 1 {
        NoiseDistance::Manhattan
    } else if v == 2 {
        NoiseDistance::Chebyshev
    } else {
        NoiseDistance::Euclidean
    }
}

impl From<u8> for NoiseDistance {
    fn from(v: u8) -> (r: Self) {
        match v {
            0 => NoiseDistance::Euclidean,
            1 => NoiseDistance::Manhattan,
            2 => NoiseDistance::Chebyshev,
            _ => NoiseDistance::Euclidean,
        }
    }
}

impl FromSpecImpl<u8> for NoiseDistance {
    open spec fn obeys_from_spec() -> bool {
        true
    }

    open spec fn from_spec(v: u8) -> Self {
        noise_distance_of(v)
    }
}

impl Default for NoiseDistance {
    fn default() -> (r: Self)
        ensures
            r == NoiseDistance::Euclidean,
    {
        NoiseDistance::Euclidean
    }
}

/// Which cell-point distance Worley noise reports.
#[derive(Debug, Clone, Copy, PartialEq, Eq, Structural)]
pub enum WorleyMode {
    Nearest,
    SecondNearest,
    Difference,
}

/// The mode numbered `v`; unknown numbers give the default, nearest.
pub open spec fn worley_mode_of(v: u8) -> WorleyMode {
    if v == 1 {
        WorleyMode::SecondNearest
    } else if v == 2 {
        WorleyMode::Difference
    } else {
        WorleyMode::Nearest
    }
}

impl From<u8> for WorleyMode {
    fn from(v: u8) -> (r: Self) {
        match v {
            0 => WorleyMode::Nearest,
            1 => WorleyMode::SecondNearest,
            2 => WorleyMode::Difference,
            _ => WorleyMode::Nearest,
        }
    }
}

impl FromSpecImpl<u8> for WorleyMode {
    open spec fn obeys_from_spec() -> bool {
        true
    }

    open spec fn from_spec(v: u8) -> Self {
        worley_mode_of(v)
    }
}

impl Default for WorleyMode {
    fn default() -> (r: Self)
        ensures
            r == WorleyMode::Nearest,
    {
        WorleyMode::Nearest
    }
}

/// The noise settings by number: each setting's variants are numbered from
/// zero in declaration order, and a number past the last gives the default,
/// the first variant.
pub proof fn lemma_noise_setting_numbers(v: u8)
    ensures
        v == 0 ==> noise_kind_of(v) == NoiseKind::Perlin,
        v == 1 ==> noise_kind_of(v) == NoiseKind::Simplex,
        v == 2 ==> noise_kind_of(v) == NoiseKind::Value,
        v == 3 ==> noise_kind_of(v) == NoiseKind::Worley,
        v >= 4 ==> noise_kind_of(v) == NoiseKind::Perlin,
        v == 0 ==> noise_distance_of(v) == NoiseDistance::Euclidean,
        v == 1 ==> noise_distance_of(v) == NoiseDistance::Manhattan,
        v == 2 ==> noise_distance_of(v) == NoiseDistance::Chebyshev,
        v >= 3 ==> noise_distance_of(v) == NoiseDistance::Euclidean,
        v == 0 ==> worley_mode_of(v) == WorleyMode::Nearest,
        v == 1 ==> worley_mode_of(v) == WorleyMode::SecondNearest,
        v == 2 ==> worley_mode_of(v) == WorleyMode::Difference,
        v >= 3 ==> worley_mode_of(v) == WorleyMode::Nearest,
{
}

/// Layers of fractal noise: at least one, whatever is asked.
pub fn octave_count(octaves: u32) -> (r: u32)
    ensures
        r == (if octaves < 1 { 1 } else { octaves }),
{
    if octaves < 1 { 1 } else { octaves }
}

} // verus!
