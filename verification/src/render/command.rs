//! Draw-state settings as the sketch API names and numbers them, and the
//! blend modes with their fixed-function blend states.
use crate::bytes::{ascii_lower, eq_ignore_ascii_case, str_is, str_is_ignore_ascii_case};
use crate::error::{InvalidArgument, ProcessingError};
use vstd::prelude::*;
use vstd::std_specs::convert::{FromSpecImpl, TryFromSpecImpl};
use vstd::string::StringSliceAdditionalSpecFns;

verus! {

broadcast use vstd::string::group_string_axioms;

/// The setting name `left` (matched ignoring ASCII case).
pub const LEFT: [u8; 4] = [108, 101, 102, 116];

/// The setting name `center` (matched ignoring ASCII case).
pub const CENTER: [u8; 6] = [99, 101, 110, 116, 101, 114];

/// The setting name `right` (matched ignoring ASCII case).
pub const RIGHT: [u8; 5] = [114, 105, 103, 104, 116];

/// The setting name `baseline` (matched ignoring ASCII case).
pub const BASELINE: [u8; 8] = [98, 97, 115, 101, 108, 105, 110, 101];

/// The setting name `top` (matched ignoring ASCII case).
pub const TOP: [u8; 3] = [116, 111, 112];

/// The setting name `bottom` (matched ignoring ASCII case).
pub const BOTTOM: [u8; 6] = [98, 111, 116, 116, 111, 109];

/// The setting name `word` (matched ignoring ASCII case).
pub const WORD: [u8; 4] = [119, 111, 114, 100];

/// The setting name `char` (matched ignoring ASCII case).
pub const CHAR: [u8; 4] = [99, 104, 97, 114];

/// The setting name `normal` (matched ignoring ASCII case).
pub const NORMAL: [u8; 6] = [110, 111, 114, 109, 97, 108];

/// The setting name `italic` (matched ignoring ASCII case).
pub const ITALIC: [u8; 6] = [105, 116, 97, 108, 105, 99];

/// The setting name `bold` (matched ignoring ASCII case).
pub const BOLD: [u8; 4] = [98, 111, 108, 100];

/// The setting name `bold_italic` (matched ignoring ASCII case).
pub const BOLD_ITALIC: [u8; 11] = [98, 111, 108, 100, 95, 105, 116, 97, 108, 105, 99];

/// The setting name `round` (matched ignoring ASCII case).
pub const ROUND: [u8; 5] = [114, 111, 117, 110, 100];

/// The setting name `square` (matched ignoring ASCII case).
pub const SQUARE: [u8; 6] = [115, 113, 117, 97, 114, 101];

/// The setting name `project` (matched ignoring ASCII case).
pub const PROJECT: [u8; 7] = [112, 114, 111, 106, 101, 99, 116];

/// The setting name `miter` (matched ignoring ASCII case).
pub const MITER: [u8; 5] = [109, 105, 116, 101, 114];

/// The setting name `bevel` (matched ignoring ASCII case).
pub const BEVEL: [u8; 5] = [98, 101, 118, 101, 108];

/// The setting name `open` (matched ignoring ASCII case).
pub const OPEN: [u8; 4] = [111, 112, 101, 110];

/// The setting name `chord` (matched ignoring ASCII case).
pub const CHORD: [u8; 5] = [99, 104, 111, 114, 100];

/// The setting name `pie` (matched ignoring ASCII case).
pub const PIE: [u8; 3] = [112, 105, 101];

/// The setting name `corner` (matched ignoring ASCII case).
pub const CORNER: [u8; 6] = [99, 111, 114, 110, 101, 114];

/// The setting name `corners` (matched ignoring ASCII case).
pub const CORNERS: [u8; 7] = [99, 111, 114, 110, 101, 114, 115];

/// The setting name `radius` (matched ignoring ASCII case).
pub const RADIUS: [u8; 6] = [114, 97, 100, 105, 117, 115];

/// The setting name `polygon` (matched ignoring ASCII case).
pub const POLYGON: [u8; 7] = [112, 111, 108, 121, 103, 111, 110];

/// The setting name `points` (matched ignoring ASCII case).
pub const POINTS: [u8; 6] = [112, 111, 105, 110, 116, 115];

/// The setting name `lines` (matched ignoring ASCII case).
pub const LINES: [u8; 5] = [108, 105, 110, 101, 115];

/// The setting name `triangles` (matched ignoring ASCII case).
pub const TRIANGLES: [u8; 9] = [116, 114, 105, 97, 110, 103, 108, 101, 115];

/// The setting name `triangle_fan` (matched ignoring ASCII case).
pub const TRIANGLE_FAN: [u8; 12] = [116, 114, 105, 97, 110, 103, 108, 101, 95, 102, 97, 110];

/// The setting name `triangle_strip` (matched ignoring ASCII case).
pub const TRIANGLE_STRIP: [u8; 14] = [116, 114, 105, 97, 110, 103, 108, 101, 95, 115, 116, 114, 105, 112];

/// The setting name `quads` (matched ignoring ASCII case).
pub const QUADS: [u8; 5] = [113, 117, 97, 100, 115];

/// The setting name `quad_strip` (matched ignoring ASCII case).
pub const QUAD_STRIP: [u8; 10] = [113, 117, 97, 100, 95, 115, 116, 114, 105, 112];

/// Horizontal text alignment.
#[derive(Debug, Clone, Copy, PartialEq, Eq, Structural)]
pub enum TextAlignH {
    Left,
    Center,
    Right,
}

/// The setting numbered `v` (in declaration order); unknown numbers give
/// the default, `Left`.
pub open spec fn text_align_h_of(v: u8) -> TextAlignH {
    if v == 1 {
        TextAlignH::Center
    } else if v == 2 {
        TextAlignH::Right
    } else {
        TextAlignH::Left
    }
}

impl From<u8> for TextAlignH {
    fn from(v: u8) -> (r: Self) {
        match v {
            0 => TextAlignH::Left,
            1 => TextAlignH::Center,
            2 => TextAlignH::Right,
            _ => TextAlignH::Left,
        }
    }
}

impl FromSpecImpl<u8> for TextAlignH {
    open spec fn obeys_from_spec() -> bool {
        true
    }

    open spec fn from_spec(v: u8) -> Self {
        text_align_h_of(v)
    }
}

impl Default for TextAlignH {
    fn default() -> (r: Self)
        ensures
            r == TextAlignH::Left,
    {
        TextAlignH::Left
    }
}

/// The setting that `s` names, ignoring ASCII case.
pub open spec fn text_align_h_named(s: Seq<u8>) -> Option<TextAlignH> {
    if eq_ignore_ascii_case(s, LEFT@) {
        Some(TextAlignH::Left)
    } else if eq_ignore_ascii_case(s, CENTER@) {
        Some(TextAlignH::Center)
    } else if eq_ignore_ascii_case(s, RIGHT@) {
        Some(TextAlignH::Right)
    } else {
        None
    }
}

impl TextAlignH {
    /// Parses a setting name, ignoring ASCII case.
    pub fn parse(s: &str) -> (r: Option<Self>)
        ensures
            r == text_align_h_named(s.spec_bytes()),
    {
        if str_is_ignore_ascii_case(s, &LEFT) {
            Some(TextAlignH::Left)
        } else if str_is_ignore_ascii_case(s, &CENTER) {
            Some(TextAlignH::Center)
        } else if str_is_ignore_ascii_case(s, &RIGHT) {
            Some(TextAlignH::Right)
        } else {
            None
        }
    }
}

/// Vertical text alignment.
#[derive(Debug, Clone, Copy, PartialEq, Eq, Structural)]
pub enum TextAlignV {
    Baseline,
    Top,
    Center,
    Bottom,
}

/// The setting numbered `v` (in declaration order); unknown numbers give
/// the default, `Baseline`.
pub open spec fn text_align_v_of(v: u8) -> TextAlignV {
    if v == 1 {
        TextAlignV::Top
    } else if v == 2 {
        TextAlignV::Center
    } else if v == 3 {
        TextAlignV::Bottom
    } else {
        TextAlignV::Baseline
    }
}

impl From<u8> for TextAlignV {
    fn from(v: u8) -> (r: Self) {
        match v {
            0 => TextAlignV::Baseline,
            1 => TextAlignV::Top,
            2 => TextAlignV::Center,
            3 => TextAlignV::Bottom,
            _ => TextAlignV::Baseline,
        }
    }
}

impl FromSpecImpl<u8> for TextAlignV {
    open spec fn obeys_from_spec() -> bool {
        true
    }

    open spec fn from_spec(v: u8) -> Self {
        text_align_v_of(v)
    }
}

impl Default for TextAlignV {
    fn default() -> (r: Self)
        ensures
            r == TextAlignV::Baseline,
    {
        TextAlignV::Baseline
    }
}

/// The setting that `s` names, ignoring ASCII case.
pub open spec fn text_align_v_named(s: Seq<u8>) -> Option<TextAlignV> {
    if eq_ignore_ascii_case(s, BASELINE@) {
        Some(TextAlignV::Baseline)
    } else if eq_ignore_ascii_case(s, TOP@) {
        Some(TextAlignV::Top)
    } else if eq_ignore_ascii_case(s, CENTER@) {
        Some(TextAlignV::Center)
    } else if eq_ignore_ascii_case(s, BOTTOM@) {
        Some(TextAlignV::Bottom)
    } else {
        None
    }
}

impl TextAlignV {
    /// Parses a setting name, ignoring ASCII case.
    pub fn parse(s: &str) -> (r: Option<Self>)
        ensures
            r == text_align_v_named(s.spec_bytes()),
    {
        if str_is_ignore_ascii_case(s, &BASELINE) {
            Some(TextAlignV::Baseline)
        } else if str_is_ignore_ascii_case(s, &TOP) {
            Some(TextAlignV::Top)
        } else if str_is_ignore_ascii_case(s, &CENTER) {
            Some(TextAlignV::Center)
        } else if str_is_ignore_ascii_case(s, &BOTTOM) {
            Some(TextAlignV::Bottom)
        } else {
            None
        }
    }
}

/// Where text wraps.
#[derive(Debug, Clone, Copy, PartialEq, Eq, Structural)]
pub enum TextWrapMode {
    Word,
    Char,
}

/// The setting numbered `v` (in declaration order); unknown numbers give
/// the default, `Word`.
pub open spec fn text_wrap_mode_of(v: u8) -> TextWrapMode {
    if v == 1 {
        TextWrapMode::Char
    } else {
        TextWrapMode::Word
    }
}

impl From<u8> for TextWrapMode {
    fn from(v: u8) -> (r: Self) {
        match v {
            0 => TextWrapMode::Word,
            1 => TextWrapMode::Char,
            _ => TextWrapMode::Word,
        }
    }
}

impl FromSpecImpl<u8> for TextWrapMode {
    open spec fn obeys_from_spec() -> bool {
        true
    }

    open spec fn from_spec(v: u8) -> Self {
        text_wrap_mode_of(v)
    }
}

impl Default for TextWrapMode {
    fn default() -> (r: Self)
        ensures
            r == TextWrapMode::Word,
    {
        TextWrapMode::Word
    }
}

/// The setting that `s` names, ignoring ASCII case.
pub open spec fn text_wrap_mode_named(s: Seq<u8>) -> Option<TextWrapMode> {
    if eq_ignore_ascii_case(s, WORD@) {
        Some(TextWrapMode::Word)
    } else if eq_ignore_ascii_case(s, CHAR@) {
        Some(TextWrapMode::Char)
    } else {
        None
    }
}

impl TextWrapMode {
    /// Parses a setting name, ignoring ASCII case.
    pub fn parse(s: &str) -> (r: Option<Self>)
        ensures
            r == text_wrap_mode_named(s.spec_bytes()),
    {
        if str_is_ignore_ascii_case(s, &WORD) {
            Some(TextWrapMode::Word)
        } else if str_is_ignore_ascii_case(s, &CHAR) {
            Some(TextWrapMode::Char)
        } else {
            None
        }
    }
}

/// Font style.
#[derive(Debug, Clone, Copy, PartialEq, Eq, Structural)]
pub enum TextStyle {
    Normal,
    Italic,
    Bold,
    BoldItalic,
}

/// The setting numbered `v` (in declaration order); unknown numbers give
/// the default, `Normal`.
pub open spec fn text_style_of(v: u8) -> TextStyle {
    if v == 1 {
        TextStyle::Italic
    } else if v == 2 {
        TextStyle::Bold
    } else if v == 3 {
        TextStyle::BoldItalic
    } else {
        TextStyle::Normal
    }
}

impl From<u8> for TextStyle {
    fn from(v: u8) -> (r: Self) {
        match v {
            0 => TextStyle::Normal,
            1 => TextStyle::Italic,
            2 => TextStyle::Bold,
            3 => TextStyle::BoldItalic,
            _ => TextStyle::Normal,
        }
    }
}

impl FromSpecImpl<u8> for TextStyle {
    open spec fn obeys_from_spec() -> bool {
        true
    }

    open spec fn from_spec(v: u8) -> Self {
        text_style_of(v)
    }
}

impl Default for TextStyle {
    fn default() -> (r: Self)
        ensures
            r == TextStyle::Normal,
    {
        TextStyle::Normal
    }
}

/// The setting that `s` names, ignoring ASCII case.
pub open spec fn text_style_named(s: Seq<u8>) -> Option<TextStyle> {
    if eq_ignore_ascii_case(s, NORMAL@) {
        Some(TextStyle::Normal)
    } else if eq_ignore_ascii_case(s, ITALIC@) {
        Some(TextStyle::Italic)
    } else if eq_ignore_ascii_case(s, BOLD@) {
        Some(TextStyle::Bold)
    } else if eq_ignore_ascii_case(s, BOLD_ITALIC@) {
        Some(TextStyle::BoldItalic)
    } else {
        None
    }
}

impl TextStyle {
    /// Parses a setting name, ignoring ASCII case.
    pub fn parse(s: &str) -> (r: Option<Self>)
        ensures
            r == text_style_named(s.spec_bytes()),
    {
        if str_is_ignore_ascii_case(s, &NORMAL) {
            Some(TextStyle::Normal)
        } else if str_is_ignore_ascii_case(s, &ITALIC) {
            Some(TextStyle::Italic)
        } else if str_is_ignore_ascii_case(s, &BOLD) {
            Some(TextStyle::Bold)
        } else if str_is_ignore_ascii_case(s, &BOLD_ITALIC) {
            Some(TextStyle::BoldItalic)
        } else {
            None
        }
    }
}

/// How stroke ends are drawn.
#[derive(Debug, Clone, Copy, PartialEq, Eq, Structural)]
pub enum StrokeCapMode {
    Round,
    Square,
    Project,
}

/// The setting numbered `v` (in declaration order); unknown numbers give
/// the default, `Round`.
pub open spec fn stroke_cap_mode_of(v: u8) -> StrokeCapMode {
    if v == 1 {
        StrokeCapMode::Square
    } else if v == 2 {
        StrokeCapMode::Project
    } else {
        StrokeCapMode::Round
    }
}

impl From<u8> for StrokeCapMode {
    fn from(v: u8) -> (r: Self) {
        match v {
            0 => StrokeCapMode::Round,
            1 => StrokeCapMode::Square,
            2 => StrokeCapMode::Project,
            _ => StrokeCapMode::Round,
        }
    }
}

impl FromSpecImpl<u8> for StrokeCapMode {
    open spec fn obeys_from_spec() -> bool {
        true
    }

    open spec fn from_spec(v: u8) -> Self {
        stroke_cap_mode_of(v)
    }
}

impl Default for StrokeCapMode {
    fn default() -> (r: Self)
        ensures
            r == StrokeCapMode::Round,
    {
        StrokeCapMode::Round
    }
}

/// The setting that `s` names, ignoring ASCII case.
pub open spec fn stroke_cap_mode_named(s: Seq<u8>) -> Option<StrokeCapMode> {
    if eq_ignore_ascii_case(s, ROUND@) {
        Some(StrokeCapMode::Round)
    } else if eq_ignore_ascii_case(s, SQUARE@) {
        Some(StrokeCapMode::Square)
    } else if eq_ignore_ascii_case(s, PROJECT@) {
        Some(StrokeCapMode::Project)
    } else {
        None
    }
}

impl StrokeCapMode {
    /// Parses a setting name, ignoring ASCII case.
    pub fn parse(s: &str) -> (r: Option<Self>)
        ensures
            r == stroke_cap_mode_named(s.spec_bytes()),
    {
        if str_is_ignore_ascii_case(s, &ROUND) {
            Some(StrokeCapMode::Round)
        } else if str_is_ignore_ascii_case(s, &SQUARE) {
            Some(StrokeCapMode::Square)
        } else if str_is_ignore_ascii_case(s, &PROJECT) {
            Some(StrokeCapMode::Project)
        } else {
            None
        }
    }
}

/// How stroke corners are drawn.
#[derive(Debug, Clone, Copy, PartialEq, Eq, Structural)]
pub enum StrokeJoinMode {
    Round,
    Miter,
    Bevel,
}

/// The setting numbered `v` (in declaration order); unknown numbers give
/// the default, `Round`.
pub open spec fn stroke_join_mode_of(v: u8) -> StrokeJoinMode {
    if v == 1 {
        StrokeJoinMode::Miter
    } else if v == 2 {
        StrokeJoinMode::Bevel
    } else {
        StrokeJoinMode::Round
    }
}

impl From<u8> for StrokeJoinMode {
    fn from(v: u8) -> (r: Self) {
        match v {
            0 => StrokeJoinMode::Round,
            1 => StrokeJoinMode::Miter,
            2 => StrokeJoinMode::Bevel,
            _ => StrokeJoinMode::Round,
        }
    }
}

impl FromSpecImpl<u8> for StrokeJoinMode {
    open spec fn obeys_from_spec() -> bool {
        true
    }

    open spec fn from_spec(v: u8) -> Self {
        stroke_join_mode_of(v)
    }
}

impl Default for StrokeJoinMode {
    fn default() -> (r: Self)
        ensures
            r == StrokeJoinMode::Round,
    {
        StrokeJoinMode::Round
    }
}

/// The setting that `s` names, ignoring ASCII case.
pub open spec fn stroke_join_mode_named(s: Seq<u8>) -> Option<StrokeJoinMode> {
    if eq_ignore_ascii_case(s, ROUND@) {
        Some(StrokeJoinMode::Round)
    } else if eq_ignore_ascii_case(s, MITER@) {
        Some(StrokeJoinMode::Miter)
    } else if eq_ignore_ascii_case(s, BEVEL@) {
        Some(StrokeJoinMode::Bevel)
    } else {
        None
    }
}

impl StrokeJoinMode {
    /// Parses a setting name, ignoring ASCII case.
    pub fn parse(s: &str) -> (r: Option<Self>)
        ensures
            r == stroke_join_mode_named(s.spec_bytes()),
    {
        if str_is_ignore_ascii_case(s, &ROUND) {
            Some(StrokeJoinMode::Round)
        } else if str_is_ignore_ascii_case(s, &MITER) {
            Some(StrokeJoinMode::Miter)
        } else if str_is_ignore_ascii_case(s, &BEVEL) {
            Some(StrokeJoinMode::Bevel)
        } else {
            None
        }
    }
}

/// How an arc is closed.
#[derive(Debug, Clone, Copy, PartialEq, Eq, Structural)]
pub enum ArcMode {
    Open,
    Chord,
    Pie,
}

/// The setting numbered `v` (in declaration order); unknown numbers give
/// the default, `Open`.
pub open spec fn arc_mode_of(v: u8) -> ArcMode {
    if v == 1 {
        ArcMode::Chord
    } else if v == 2 {
        ArcMode::Pie
    } else {
        ArcMode::Open
    }
}

impl From<u8> for ArcMode {
    fn from(v: u8) -> (r: Self) {
        match v {
            0 => ArcMode::Open,
            1 => ArcMode::Chord,
            2 => ArcMode::Pie,
            _ => ArcMode::Open,
        }
    }
}

impl FromSpecImpl<u8> for ArcMode {
    open spec fn obeys_from_spec() -> bool {
        true
    }

    open spec fn from_spec(v: u8) -> Self {
        arc_mode_of(v)
    }
}

impl Default for ArcMode {
    fn default() -> (r: Self)
        ensures
            r == ArcMode::Open,
    {
        ArcMode::Open
    }
}

/// The setting that `s` names, ignoring ASCII case.
pub open spec fn arc_mode_named(s: Seq<u8>) -> Option<ArcMode> {
    if eq_ignore_ascii_case(s, OPEN@) {
        Some(ArcMode::Open)
    } else if eq_ignore_ascii_case(s, CHORD@) {
        Some(ArcMode::Chord)
    } else if eq_ignore_ascii_case(s, PIE@) {
        Some(ArcMode::Pie)
    } else {
        None
    }
}

impl ArcMode {
    /// Parses a setting name, ignoring ASCII case.
    pub fn parse(s: &str) -> (r: Option<Self>)
        ensures
            r == arc_mode_named(s.spec_bytes()),
    {
        if str_is_ignore_ascii_case(s, &OPEN) {
            Some(ArcMode::Open)
        } else if str_is_ignore_ascii_case(s, &CHORD) {
            Some(ArcMode::Chord)
        } else if str_is_ignore_ascii_case(s, &PIE) {
            Some(ArcMode::Pie)
        } else {
            None
        }
    }
}

/// How rectangle, ellipse and image coordinates are read.
#[derive(Debug, Clone, Copy, PartialEq, Eq, Structural)]
pub enum ShapeMode {
    Corner,
    Corners,
    Center,
    Radius,
}

/// The setting numbered `v` (in declaration order); unknown numbers give
/// the default, `Corner`.
pub open spec fn shape_mode_of(v: u8) -> ShapeMode {
    if v == 1 {
        ShapeMode::Corners
    } else if v == 2 {
        ShapeMode::Center
    } else if v == 3 {
        ShapeMode::Radius
    } else {
        ShapeMode::Corner
    }
}

impl From<u8> for ShapeMode {
    fn from(v: u8) -> (r: Self) {
        match v {
            0 => ShapeMode::Corner,
            1 => ShapeMode::Corners,
            2 => ShapeMode::Center,
            3 => ShapeMode::Radius,
            _ => ShapeMode::Corner,
        }
    }
}

impl FromSpecImpl<u8> for ShapeMode {
    open spec fn obeys_from_spec() -> bool {
        true
    }

    open spec fn from_spec(v: u8) -> Self {
        shape_mode_of(v)
    }
}

impl Default for ShapeMode {
    fn default() -> (r: Self)
        ensures
            r == ShapeMode::Corner,
    {
        ShapeMode::Corner
    }
}

/// The setting that `s` names, ignoring ASCII case.
pub open spec fn shape_mode_named(s: Seq<u8>) -> Option<ShapeMode> {
    if eq_ignore_ascii_case(s, CORNER@) {
        Some(ShapeMode::Corner)
    } else if eq_ignore_ascii_case(s, CORNERS@) {
        Some(ShapeMode::Corners)
    } else if eq_ignore_ascii_case(s, CENTER@) {
        Some(ShapeMode::Center)
    } else if eq_ignore_ascii_case(s, RADIUS@) {
        Some(ShapeMode::Radius)
    } else {
        None
    }
}

impl ShapeMode {
    /// Parses a setting name, ignoring ASCII case.
    pub fn parse(s: &str) -> (r: Option<Self>)
        ensures
            r == shape_mode_named(s.spec_bytes()),
    {
        if str_is_ignore_ascii_case(s, &CORNER) {
            Some(ShapeMode::Corner)
        } else if str_is_ignore_ascii_case(s, &CORNERS) {
            Some(ShapeMode::Corners)
        } else if str_is_ignore_ascii_case(s, &CENTER) {
            Some(ShapeMode::Center)
        } else if str_is_ignore_ascii_case(s, &RADIUS) {
            Some(ShapeMode::Radius)
        } else {
            None
        }
    }
}

/// What `begin_shape` vertices form.
#[derive(Debug, Clone, Copy, PartialEq, Eq, Structural)]
pub enum ShapeKind {
    Polygon,
    Points,
    Lines,
    Triangles,
    TriangleFan,
    TriangleStrip,
    Quads,
    QuadStrip,
}

/// The setting numbered `v` (in declaration order); unknown numbers give
/// the default, `Polygon`.
pub open spec fn shape_kind_of(v: u8) -> ShapeKind {
    if v == 1 {
        ShapeKind::Points
    } else if v == 2 {
        ShapeKind::Lines
    } else if v == 3 {
        ShapeKind::Triangles
    } else if v == 4 {
        ShapeKind::TriangleFan
    } else if v == 5 {
        ShapeKind::TriangleStrip
    } else if v == 6 {
        ShapeKind::Quads
    } else if v == 7 {
        ShapeKind::QuadStrip
    } else {
        ShapeKind::Polygon
    }
}

impl From<u8> for ShapeKind {
    fn from(v: u8) -> (r: Self) {
        match v {
            0 => ShapeKind::Polygon,
            1 => ShapeKind::Points,
            2 => ShapeKind::Lines,
            3 => ShapeKind::Triangles,
            4 => ShapeKind::TriangleFan,
            5 => ShapeKind::TriangleStrip,
            6 => ShapeKind::Quads,
            7 => ShapeKind::QuadStrip,
            _ => ShapeKind::Polygon,
        }
    }
}

impl FromSpecImpl<u8> for ShapeKind {
    open spec fn obeys_from_spec() -> bool {
        true
    }

    open spec fn from_spec(v: u8) -> Self {
        shape_kind_of(v)
    }
}

impl Default for ShapeKind {
    fn default() -> (r: Self)
        ensures
            r == ShapeKind::Polygon,
    {
        ShapeKind::Polygon
    }
}

/// The setting that `s` names, ignoring ASCII case.
pub open spec fn shape_kind_named(s: Seq<u8>) -> Option<ShapeKind> {
    if eq_ignore_ascii_case(s, POLYGON@) {
        Some(ShapeKind::Polygon)
    } else if eq_ignore_ascii_case(s, POINTS@) {
        Some(ShapeKind::Points)
    } else if eq_ignore_ascii_case(s, LINES@) {
        Some(ShapeKind::Lines)
    } else if eq_ignore_ascii_case(s, TRIANGLES@) {
        Some(ShapeKind::Triangles)
    } else if eq_ignore_ascii_case(s, TRIANGLE_FAN@) {
        Some(ShapeKind::TriangleFan)
    } else if eq_ignore_ascii_case(s, TRIANGLE_STRIP@) {
        Some(ShapeKind::TriangleStrip)
    } else if eq_ignore_ascii_case(s, QUADS@) {
        Some(ShapeKind::Quads)
    } else if eq_ignore_ascii_case(s, QUAD_STRIP@) {
        Some(ShapeKind::QuadStrip)
    } else {
        None
    }
}

impl ShapeKind {
    /// Parses a setting name, ignoring ASCII case.
    pub fn parse(s: &str) -> (r: Option<Self>)
        ensures
            r == shape_kind_named(s.spec_bytes()),
    {
        if str_is_ignore_ascii_case(s, &POLYGON) {
            Some(ShapeKind::Polygon)
        } else if str_is_ignore_ascii_case(s, &POINTS) {
            Some(ShapeKind::Points)
        } else if str_is_ignore_ascii_case(s, &LINES) {
            Some(ShapeKind::Lines)
        } else if str_is_ignore_ascii_case(s, &TRIANGLES) {
            Some(ShapeKind::Triangles)
        } else if str_is_ignore_ascii_case(s, &TRIANGLE_FAN) {
            Some(ShapeKind::TriangleFan)
        } else if str_is_ignore_ascii_case(s, &TRIANGLE_STRIP) {
            Some(ShapeKind::TriangleStrip)
        } else if str_is_ignore_ascii_case(s, &QUADS) {
            Some(ShapeKind::Quads)
        } else if str_is_ignore_ascii_case(s, &QUAD_STRIP) {
            Some(ShapeKind::QuadStrip)
        } else {
            None
        }
    }
}
/// The base direction of text.
#[derive(Debug, Clone, Copy, PartialEq, Eq, Structural)]
pub enum TextDirection {
    /// Taken from the text itself.
    Auto,
    LeftToRight,
    RightToLeft,
}

/// The direction numbered `v` (in declaration order); unknown numbers give
/// the default, `Auto`.
pub open spec fn text_direction_of(v: u8) -> TextDirection {
    if v == 1 {
        TextDirection::LeftToRight
    } else if v == 2 {
        TextDirection::RightToLeft
    } else {
        TextDirection::Auto
    }
}

impl From<u8> for TextDirection {
    fn from(v: u8) -> (r: Self) {
        match v {
            1 => TextDirection::LeftToRight,
            2 => TextDirection::RightToLeft,
            _ => TextDirection::Auto,
        }
    }
}

impl FromSpecImpl<u8> for TextDirection {
    open spec fn obeys_from_spec() -> bool {
        true
    }

    open spec fn from_spec(v: u8) -> Self {
        text_direction_of(v)
    }
}

impl Default for TextDirection {
    fn default() -> (r: Self)
        ensures
            r == TextDirection::Auto,
    {
        TextDirection::Auto
    }
}

/// The blend mode of subsequent draws.
#[derive(Debug, Clone, Copy, PartialEq, Eq, Structural, Hash)]
pub enum BlendMode {
    Blend,
    Add,
    Subtract,
    Darkest,
    Lightest,
    Difference,
    Exclusion,
    Multiply,
    Screen,
    Replace,
}

/// The blend mode numbered `v` (`0..=9`, in declaration order).
pub open spec fn blend_mode_of(v: u8) -> Option<BlendMode> {
    if v == 0 {
        Some(BlendMode::Blend)
    } else if v == 1 {
        Some(BlendMode::Add)
    } else if v == 2 {
        Some(BlendMode::Subtract)
    } else if v == 3 {
        Some(BlendMode::Darkest)
    } else if v == 4 {
        Some(BlendMode::Lightest)
    } else if v == 5 {
        Some(BlendMode::Difference)
    } else if v == 6 {
        Some(BlendMode::Exclusion)
    } else if v == 7 {
        Some(BlendMode::Multiply)
    } else if v == 8 {
        Some(BlendMode::Screen)
    } else if v == 9 {
        Some(BlendMode::Replace)
    } else {
        None
    }
}

/// What decoding blend mode number `v` gives.
pub open spec fn blend_mode_result(v: u8) -> Result<BlendMode, ProcessingError> {
    match blend_mode_of(v) {
        Some(m) => Ok(m),
        None => Err(ProcessingError::InvalidArgument(InvalidArgument::UnknownBlendMode(v))),
    }
}

impl TryFrom<u8> for BlendMode {
    type Error = ProcessingError;

    fn try_from(v: u8) -> (r: Result<Self, Self::Error>) {
        match v {
            0 => Ok(BlendMode::Blend),
            1 => Ok(BlendMode::Add),
            2 => Ok(BlendMode::Subtract),
            3 => Ok(BlendMode::Darkest),
            4 => Ok(BlendMode::Lightest),
            5 => Ok(BlendMode::Difference),
            6 => Ok(BlendMode::Exclusion),
            7 => Ok(BlendMode::Multiply),
            8 => Ok(BlendMode::Screen),
            9 => Ok(BlendMode::Replace),
            _ => Err(ProcessingError::InvalidArgument(InvalidArgument::UnknownBlendMode(v))),
        }
    }
}

impl TryFromSpecImpl<u8> for BlendMode {
    open spec fn obeys_try_from_spec() -> bool {
        true
    }

    open spec fn try_from_spec(v: u8) -> Result<Self, Self::Error> {
        blend_mode_result(v)
    }
}

impl Default for BlendMode {
    fn default() -> (r: Self)
        ensures
            r == BlendMode::Blend,
    {
        BlendMode::Blend
    }
}

/// The name `BLEND`.
pub const NAME_BLEND: [u8; 5] = [66, 76, 69, 78, 68];

/// The name `ADD`.
pub const NAME_ADD: [u8; 3] = [65, 68, 68];

/// The name `SUBTRACT`.
pub const NAME_SUBTRACT: [u8; 8] = [83, 85, 66, 84, 82, 65, 67, 84];

/// The name `DARKEST`.
pub const NAME_DARKEST: [u8; 7] = [68, 65, 82, 75, 69, 83, 84];

/// The name `LIGHTEST`.
pub const NAME_LIGHTEST: [u8; 8] = [76, 73, 71, 72, 84, 69, 83, 84];

/// The name `DIFFERENCE`.
pub const NAME_DIFFERENCE: [u8; 10] = [68, 73, 70, 70, 69, 82, 69, 78, 67, 69];

/// The name `EXCLUSION`.
pub const NAME_EXCLUSION: [u8; 9] = [69, 88, 67, 76, 85, 83, 73, 79, 78];

/// The name `MULTIPLY`.
pub const NAME_MULTIPLY: [u8; 8] = [77, 85, 76, 84, 73, 80, 76, 89];

/// The name `SCREEN`.
pub const NAME_SCREEN: [u8; 6] = [83, 67, 82, 69, 69, 78];

/// The name `REPLACE`.
pub const NAME_REPLACE: [u8; 7] = [82, 69, 80, 76, 65, 67, 69];

/// The name of blend mode `m`, in capitals.
pub open spec fn blend_mode_name(m: BlendMode) -> Seq<u8> {
    match m {
        BlendMode::Blend => NAME_BLEND@,
        BlendMode::Add => NAME_ADD@,
        BlendMode::Subtract => NAME_SUBTRACT@,
        BlendMode::Darkest => NAME_DARKEST@,
        BlendMode::Lightest => NAME_LIGHTEST@,
        BlendMode::Difference => NAME_DIFFERENCE@,
        BlendMode::Exclusion => NAME_EXCLUSION@,
        BlendMode::Multiply => NAME_MULTIPLY@,
        BlendMode::Screen => NAME_SCREEN@,
        BlendMode::Replace => NAME_REPLACE@,
    }
}

/// The blend mode called `name` (exactly, in capitals).
pub open spec fn blend_mode_named(name: Seq<u8>) -> Option<BlendMode> {
    if name == NAME_BLEND@ {
        Some(BlendMode::Blend)
    } else if name == NAME_ADD@ {
        Some(BlendMode::Add)
    } else if name == NAME_SUBTRACT@ {
        Some(BlendMode::Subtract)
    } else if name == NAME_DARKEST@ {
        Some(BlendMode::Darkest)
    } else if name == NAME_LIGHTEST@ {
        Some(BlendMode::Lightest)
    } else if name == NAME_DIFFERENCE@ {
        Some(BlendMode::Difference)
    } else if name == NAME_EXCLUSION@ {
        Some(BlendMode::Exclusion)
    } else if name == NAME_MULTIPLY@ {
        Some(BlendMode::Multiply)
    } else if name == NAME_SCREEN@ {
        Some(BlendMode::Screen)
    } else if name == NAME_REPLACE@ {
        Some(BlendMode::Replace)
    } else {
        None
    }
}

/// A blend factor of a fixed-function blend equation.
#[derive(Debug, Clone, Copy, PartialEq, Eq, Structural, Hash)]
pub enum BlendFactor {
    Zero,
    One,
    Src,
    OneMinusSrc,
    SrcAlpha,
    OneMinusSrcAlpha,
    Dst,
    OneMinusDst,
    DstAlpha,
    OneMinusDstAlpha,
    SrcAlphaSaturated,
}

/// The operation combining the weighted source and destination.
#[derive(Debug, Clone, Copy, PartialEq, Eq, Structural, Hash)]
pub enum BlendOperation {
    Add,
    Subtract,
    ReverseSubtract,
    Min,
    Max,
}

/// One blend equation: `src * src_factor OP dst * dst_factor`.
#[derive(Debug, Clone, Copy, PartialEq, Eq, Structural, Hash)]
pub struct BlendComponent {
    pub src_factor: BlendFactor,
    pub dst_factor: BlendFactor,
    pub operation: BlendOperation,
}

/// The color and alpha blend equations.
#[derive(Debug, Clone, Copy, PartialEq, Eq, Structural, Hash)]
pub struct BlendState {
    pub color: BlendComponent,
    pub alpha: BlendComponent,
}

/// The blend factor numbered `v` (`0..=10`, in declaration order).
pub open spec fn blend_factor_of(v: u8) -> Option<BlendFactor> {
    if v == 0 {
        Some(BlendFactor::Zero)
    } else if v == 1 {
        Some(BlendFactor::One)
    } else if v == 2 {
        Some(BlendFactor::Src)
    } else if v == 3 {
        Some(BlendFactor::OneMinusSrc)
    } else if v == 4 {
        Some(BlendFactor::SrcAlpha)
    } else if v == 5 {
        Some(BlendFactor::OneMinusSrcAlpha)
    } else if v == 6 {
        Some(BlendFactor::Dst)
    } else if v == 7 {
        Some(BlendFactor::OneMinusDst)
    } else if v == 8 {
        Some(BlendFactor::DstAlpha)
    } else if v == 9 {
        Some(BlendFactor::OneMinusDstAlpha)
    } else if v == 10 {
        Some(BlendFactor::SrcAlphaSaturated)
    } else {
        None
    }
}

/// The blend operation numbered `v` (`0..=4`, in declaration order).
pub open spec fn blend_operation_of(v: u8) -> Option<BlendOperation> {
    if v == 0 {
        Some(BlendOperation::Add)
    } else if v == 1 {
        Some(BlendOperation::Subtract)
    } else if v == 2 {
        Some(BlendOperation::ReverseSubtract)
    } else if v == 3 {
        Some(BlendOperation::Min)
    } else if v == 4 {
        Some(BlendOperation::Max)
    } else {
        None
    }
}

fn blend_factor_from_u8(v: u8) -> (r: Result<BlendFactor, ProcessingError>)
    ensures
        match blend_factor_of(v) {
            Some(f) => r == Ok::<BlendFactor, ProcessingError>(f),
            None => r == Err::<BlendFactor, ProcessingError>(
                ProcessingError::InvalidArgument(InvalidArgument::UnknownBlendFactor(v)),
            ),
        },
{
    match v {
        0 => Ok(BlendFactor::Zero),
        1 => Ok(BlendFactor::One),
        2 => Ok(BlendFactor::Src),
        3 => Ok(BlendFactor::OneMinusSrc),
        4 => Ok(BlendFactor::SrcAlpha),
        5 => Ok(BlendFactor::OneMinusSrcAlpha),
        6 => Ok(BlendFactor::Dst),
        7 => Ok(BlendFactor::OneMinusDst),
        8 => Ok(BlendFactor::DstAlpha),
        9 => Ok(BlendFactor::OneMinusDstAlpha),
        10 => Ok(BlendFactor::SrcAlphaSaturated),
        _ => Err(ProcessingError::InvalidArgument(InvalidArgument::UnknownBlendFactor(v))),
    }
}

fn blend_op_from_u8(v: u8) -> (r: Result<BlendOperation, ProcessingError>)
    ensures
        match blend_operation_of(v) {
            Some(f) => r == Ok::<BlendOperation, ProcessingError>(f),
            None => r == Err::<BlendOperation, ProcessingError>(
                ProcessingError::InvalidArgument(InvalidArgument::UnknownBlendOperation(v)),
            ),
        },
{
    match v {
        0 => Ok(BlendOperation::Add),
        1 => Ok(BlendOperation::Subtract),
        2 => Ok(BlendOperation::ReverseSubtract),
        3 => Ok(BlendOperation::Min),
        4 => Ok(BlendOperation::Max),
        _ => Err(ProcessingError::InvalidArgument(InvalidArgument::UnknownBlendOperation(v))),
    }
}

/// The fixed-function state of blend mode `m`; `Blend` keeps the material's
/// own alpha blending and has none.
pub open spec fn blend_state_of(m: BlendMode) -> Option<BlendState> {
    let additive = component(BlendFactor::One, BlendFactor::One, BlendOperation::Add);
    match m {
        BlendMode::Blend => None,
        BlendMode::Add => Some(BlendState {
            color: component(BlendFactor::SrcAlpha, BlendFactor::One, BlendOperation::Add),
            alpha: additive,
        }),
        BlendMode::Subtract => Some(BlendState {
            color: component(BlendFactor::SrcAlpha, BlendFactor::One, BlendOperation::ReverseSubtract),
            alpha: additive,
        }),
        BlendMode::Darkest => Some(BlendState {
            color: component(BlendFactor::One, BlendFactor::One, BlendOperation::Min),
            alpha: additive,
        }),
        BlendMode::Lightest => Some(BlendState {
            color: component(BlendFactor::One, BlendFactor::One, BlendOperation::Max),
            alpha: additive,
        }),
        BlendMode::Difference => Some(BlendState {
            color: component(BlendFactor::One, BlendFactor::One, BlendOperation::ReverseSubtract),
            alpha: component(BlendFactor::One, BlendFactor::One, BlendOperation::Max),
        }),
        BlendMode::Exclusion => Some(BlendState {
            color: component(BlendFactor::OneMinusDst, BlendFactor::OneMinusSrc, BlendOperation::Add),
            alpha: component(BlendFactor::One, BlendFactor::OneMinusSrcAlpha, BlendOperation::Add),
        }),
        BlendMode::Multiply => Some(BlendState {
            color: component(BlendFactor::Dst, BlendFactor::OneMinusSrcAlpha, BlendOperation::Add),
            alpha: additive,
        }),
        BlendMode::Screen => Some(BlendState {
            color: component(BlendFactor::OneMinusDst, BlendFactor::One, BlendOperation::Add),
            alpha: additive,
        }),
        BlendMode::Replace => Some(BlendState {
            color: component(BlendFactor::One, BlendFactor::Zero, BlendOperation::Add),
            alpha: component(BlendFactor::One, BlendFactor::Zero, BlendOperation::Add),
        }),
    }
}

/// What each blend mode does to the destination. `BLEND` alone keeps the
/// material's own alpha blending and has no fixed-function state. `ADD` adds
/// the source weighted by its alpha; `SUBTRACT` takes it away from the
/// destination; `DARKEST` keeps the smaller and `LIGHTEST` the larger of
/// source and destination in each channel; `DIFFERENCE` takes the source
/// from the destination and keeps the larger alpha; `EXCLUSION` sums each
/// weighted by the other's complement; `MULTIPLY` scales the source by the
/// destination; `SCREEN` adds the source scaled by the destination's
/// complement; `REPLACE` writes the source and ignores the destination. The
/// alphas are added, except under `DIFFERENCE` (the larger one is kept),
/// `EXCLUSION` (source over destination) and `REPLACE` (the source's).
pub proof fn lemma_blend_equations(m: BlendMode)
    ensures
        (blend_state_of(m) is None) <==> m == BlendMode::Blend,
        m == BlendMode::Add ==> blend_state_of(m) == (Some(BlendState { color: BlendComponent { src_factor: BlendFactor::SrcAlpha, dst_factor: BlendFactor::One, operation: BlendOperation::Add }, alpha: BlendComponent { src_factor: BlendFactor::One, dst_factor: BlendFactor::One, operation: BlendOperation::Add } })),
        m == BlendMode::Subtract ==> blend_state_of(m) == (Some(BlendState { color: BlendComponent { src_factor: BlendFactor::SrcAlpha, dst_factor: BlendFactor::One, operation: BlendOperation::ReverseSubtract }, alpha: BlendComponent { src_factor: BlendFactor::One, dst_factor: BlendFactor::One, operation: BlendOperation::Add } })),
        m == BlendMode::Darkest ==> blend_state_of(m) == (Some(BlendState { color: BlendComponent { src_factor: BlendFactor::One, dst_factor: BlendFactor::One, operation: BlendOperation::Min }, alpha: BlendComponent { src_factor: BlendFactor::One, dst_factor: BlendFactor::One, operation: BlendOperation::Add } })),
        m == BlendMode::Lightest ==> blend_state_of(m) == (Some(BlendState { color: BlendComponent { src_factor: BlendFactor::One, dst_factor: BlendFactor::One, operation: BlendOperation::Max }, alpha: BlendComponent { src_factor: BlendFactor::One, dst_factor: BlendFactor::One, operation: BlendOperation::Add } })),
        m == BlendMode::Difference ==> blend_state_of(m) == (Some(BlendState { color: BlendComponent { src_factor: BlendFactor::One, dst_factor: BlendFactor::One, operation: BlendOperation::ReverseSubtract }, alpha: BlendComponent { src_factor: BlendFactor::One, dst_factor: BlendFactor::One, operation: BlendOperation::Max } })),
        m == BlendMode::Exclusion ==> blend_state_of(m) == (Some(BlendState { color: BlendComponent { src_factor: BlendFactor::OneMinusDst, dst_factor: BlendFactor::OneMinusSrc, operation: BlendOperation::Add }, alpha: BlendComponent { src_factor: BlendFactor::One, dst_factor: BlendFactor::OneMinusSrcAlpha, operation: BlendOperation::Add } })),
        m == BlendMode::Multiply ==> blend_state_of(m) == (Some(BlendState { color: BlendComponent { src_factor: BlendFactor::Dst, dst_factor: BlendFactor::OneMinusSrcAlpha, operation: BlendOperation::Add }, alpha: BlendComponent { src_factor: BlendFactor::One, dst_factor: BlendFactor::One, operation: BlendOperation::Add } })),
        m == BlendMode::Screen ==> blend_state_of(m) == (Some(BlendState { color: BlendComponent { src_factor: BlendFactor::OneMinusDst, dst_factor: BlendFactor::One, operation: BlendOperation::Add }, alpha: BlendComponent { src_factor: BlendFactor::One, dst_factor: BlendFactor::One, operation: BlendOperation::Add } })),
        m == BlendMode::Replace ==> blend_state_of(m) == (Some(BlendState { color: BlendComponent { src_factor: BlendFactor::One, dst_factor: BlendFactor::Zero, operation: BlendOperation::Add }, alpha: BlendComponent { src_factor: BlendFactor::One, dst_factor: BlendFactor::Zero, operation: BlendOperation::Add } })),
{
}

/// Each blend mode blends its own way: no two modes share a state, so for
/// instance `DARKEST` and `LIGHTEST` never draw alike.
pub proof fn lemma_blend_modes_distinct(a: BlendMode, b: BlendMode)
    ensures
        a != b ==> blend_state_of(a) != blend_state_of(b),
        blend_state_of(BlendMode::Darkest) matches Some(s) && s.color.operation == BlendOperation::Min,
        blend_state_of(BlendMode::Lightest) matches Some(s) && s.color.operation == BlendOperation::Max,
{
    lemma_blend_equations(a);
    lemma_blend_equations(b);
    lemma_blend_equations(BlendMode::Darkest);
    lemma_blend_equations(BlendMode::Lightest);
}

/// The blend equation `src * s OP dst * d`.
pub open spec fn component(s: BlendFactor, d: BlendFactor, op: BlendOperation) -> BlendComponent {
    BlendComponent { src_factor: s, dst_factor: d, operation: op }
}

fn make_component(s: BlendFactor, d: BlendFactor, op: BlendOperation) -> (r: BlendComponent)
    ensures
        r == component(s, d, op),
{
    BlendComponent { src_factor: s, dst_factor: d, operation: op }
}

impl BlendMode {
    /// The mode's name, in capitals.
    pub fn name(self) -> (r: &'static str)
        ensures
            r.spec_bytes() == blend_mode_name(self),
    {
        proof {
            reveal_strlit("BLEND");
            reveal_strlit("ADD");
            reveal_strlit("SUBTRACT");
            reveal_strlit("DARKEST");
            reveal_strlit("LIGHTEST");
            reveal_strlit("DIFFERENCE");
            reveal_strlit("EXCLUSION");
            reveal_strlit("MULTIPLY");
            reveal_strlit("SCREEN");
            reveal_strlit("REPLACE");
        }
        let r = match self {
            BlendMode::Blend => "BLEND",
            BlendMode::Add => "ADD",
            BlendMode::Subtract => "SUBTRACT",
            BlendMode::Darkest => "DARKEST",
            BlendMode::Lightest => "LIGHTEST",
            BlendMode::Difference => "DIFFERENCE",
            BlendMode::Exclusion => "EXCLUSION",
            BlendMode::Multiply => "MULTIPLY",
            BlendMode::Screen => "SCREEN",
            BlendMode::Replace => "REPLACE",
        };
        assert(vstd::string::is_ascii(r));
        assert(r.spec_bytes() =~= blend_mode_name(self));
        r
    }

    /// The mode called `name`, matched exactly.
    pub fn from_name(name: &str) -> (r: Option<Self>)
        ensures
            r == blend_mode_named(name.spec_bytes()),
    {
        if str_is(name, &NAME_BLEND) {
            Some(BlendMode::Blend)
        } else if str_is(name, &NAME_ADD) {
            Some(BlendMode::Add)
        } else if str_is(name, &NAME_SUBTRACT) {
            Some(BlendMode::Subtract)
        } else if str_is(name, &NAME_DARKEST) {
            Some(BlendMode::Darkest)
        } else if str_is(name, &NAME_LIGHTEST) {
            Some(BlendMode::Lightest)
        } else if str_is(name, &NAME_DIFFERENCE) {
            Some(BlendMode::Difference)
        } else if str_is(name, &NAME_EXCLUSION) {
            Some(BlendMode::Exclusion)
        } else if str_is(name, &NAME_MULTIPLY) {
            Some(BlendMode::Multiply)
        } else if str_is(name, &NAME_SCREEN) {
            Some(BlendMode::Screen)
        } else if str_is(name, &NAME_REPLACE) {
            Some(BlendMode::Replace)
        } else {
            None
        }
    }

    /// The fixed-function blend state that draws with this mode use.
    pub fn to_blend_state(self) -> (r: Option<BlendState>)
        ensures
            r == blend_state_of(self),
    {
        let additive = make_component(BlendFactor::One, BlendFactor::One, BlendOperation::Add);
        match self {
            BlendMode::Blend => None,
            BlendMode::Add => Some(BlendState {
                color: make_component(BlendFactor::SrcAlpha, BlendFactor::One, BlendOperation::Add),
                alpha: additive,
            }),
            BlendMode::Subtract => Some(BlendState {
                color: make_component(
                    BlendFactor::SrcAlpha,
                    BlendFactor::One,
                    BlendOperation::ReverseSubtract,
                ),
                alpha: additive,
            }),
            BlendMode::Darkest => Some(BlendState {
                color: make_component(BlendFactor::One, BlendFactor::One, BlendOperation::Min),
                alpha: additive,
            }),
            BlendMode::Lightest => Some(BlendState {
                color: make_component(BlendFactor::One, BlendFactor::One, BlendOperation::Max),
                alpha: additive,
            }),
            BlendMode::Difference => Some(BlendState {
                color: make_component(
                    BlendFactor::One,
                    BlendFactor::One,
                    BlendOperation::ReverseSubtract,
                ),
                alpha: make_component(BlendFactor::One, BlendFactor::One, BlendOperation::Max),
            }),
            BlendMode::Exclusion => Some(BlendState {
                color: make_component(
                    BlendFactor::OneMinusDst,
                    BlendFactor::OneMinusSrc,
                    BlendOperation::Add,
                ),
                alpha: make_component(
                    BlendFactor::One,
                    BlendFactor::OneMinusSrcAlpha,
                    BlendOperation::Add,
                ),
            }),
            BlendMode::Multiply => Some(BlendState {
                color: make_component(
                    BlendFactor::Dst,
                    BlendFactor::OneMinusSrcAlpha,
                    BlendOperation::Add,
                ),
                alpha: additive,
            }),
            BlendMode::Screen => Some(BlendState {
                color: make_component(BlendFactor::OneMinusDst, BlendFactor::One, BlendOperation::Add),
                alpha: additive,
            }),
            BlendMode::Replace => Some(BlendState {
                color: make_component(BlendFactor::One, BlendFactor::Zero, BlendOperation::Add),
                alpha: make_component(BlendFactor::One, BlendFactor::Zero, BlendOperation::Add),
            }),
        }
    }
}

/// A custom blend state from numbered factors and operations; the first
/// unknown number, in argument order, is the error.
pub fn custom_blend_state(
    color_src: u8,
    color_dst: u8,
    color_op: u8,
    alpha_src: u8,
    alpha_dst: u8,
    alpha_op: u8,
) -> (r: Result<BlendState, ProcessingError>)
    ensures
        custom_blend_result(color_src, color_dst, color_op, alpha_src, alpha_dst, alpha_op) == r,
{
    let cs = match blend_factor_from_u8(color_src) {
        Ok(f) => f,
        Err(e) => return Err(e),
    };
    let cd = match blend_factor_from_u8(color_dst) {
        Ok(f) => f,
        Err(e) => return Err(e),
    };
    let co = match blend_op_from_u8(color_op) {
        Ok(f) => f,
        Err(e) => return Err(e),
    };
    let as_ = match blend_factor_from_u8(alpha_src) {
        Ok(f) => f,
        Err(e) => return Err(e),
    };
    let ad = match blend_factor_from_u8(alpha_dst) {
        Ok(f) => f,
        Err(e) => return Err(e),
    };
    let ao = match blend_op_from_u8(alpha_op) {
        Ok(f) => f,
        Err(e) => return Err(e),
    };
    Ok(BlendState { color: make_component(cs, cd, co), alpha: make_component(as_, ad, ao) })
}

/// What `custom_blend_state` gives for these numbers.
pub open spec fn custom_blend_result(
    color_src: u8,
    color_dst: u8,
    color_op: u8,
    alpha_src: u8,
    alpha_dst: u8,
    alpha_op: u8,
) -> Result<BlendState, ProcessingError> {
    if blend_factor_of(color_src) is None {
        Err(ProcessingError::InvalidArgument(InvalidArgument::UnknownBlendFactor(color_src)))
    } else if blend_factor_of(color_dst) is None {
        Err(ProcessingError::InvalidArgument(InvalidArgument::UnknownBlendFactor(color_dst)))
    } else if blend_operation_of(color_op) is None {
        Err(ProcessingError::InvalidArgument(InvalidArgument::UnknownBlendOperation(color_op)))
    } else if blend_factor_of(alpha_src) is None {
        Err(ProcessingError::InvalidArgument(InvalidArgument::UnknownBlendFactor(alpha_src)))
    } else if blend_factor_of(alpha_dst) is None {
        Err(ProcessingError::InvalidArgument(InvalidArgument::UnknownBlendFactor(alpha_dst)))
    } else if blend_operation_of(alpha_op) is None {
        Err(ProcessingError::InvalidArgument(InvalidArgument::UnknownBlendOperation(alpha_op)))
    } else {
        Ok(BlendState {
            color: component(
                blend_factor_of(color_src).unwrap(),
                blend_factor_of(color_dst).unwrap(),
                blend_operation_of(color_op).unwrap(),
            ),
            alpha: component(
                blend_factor_of(alpha_src).unwrap(),
                blend_factor_of(alpha_dst).unwrap(),
                blend_operation_of(alpha_op).unwrap(),
            ),
        })
    }
}

/// A blend mode's name names that mode again.
pub proof fn lemma_blend_name_roundtrip(m: BlendMode)
    ensures
        blend_mode_named(blend_mode_name(m)) == Some(m),
{
    assert(NAME_BLEND@ =~= seq![66u8, 76, 69, 78, 68]);
    assert(NAME_ADD@ =~= seq![65u8, 68, 68]);
    assert(NAME_SUBTRACT@ =~= seq![83u8, 85, 66, 84, 82, 65, 67, 84]);
    assert(NAME_DARKEST@ =~= seq![68u8, 65, 82, 75, 69, 83, 84]);
    assert(NAME_LIGHTEST@ =~= seq![76u8, 73, 71, 72, 84, 69, 83, 84]);
    assert(NAME_DIFFERENCE@ =~= seq![68u8, 73, 70, 70, 69, 82, 69, 78, 67, 69]);
    assert(NAME_EXCLUSION@ =~= seq![69u8, 88, 67, 76, 85, 83, 73, 79, 78]);
    assert(NAME_MULTIPLY@ =~= seq![77u8, 85, 76, 84, 73, 80, 76, 89]);
    assert(NAME_SCREEN@ =~= seq![83u8, 67, 82, 69, 69, 78]);
    assert(NAME_REPLACE@ =~= seq![82u8, 69, 80, 76, 65, 67, 69]);
}

/// The settings by number: each setting's variants are numbered from zero
/// in the order the sketch API lists them, and a number past the last gives
/// the setting's default, its first variant (blend modes, which have no
/// default, give none).
pub proof fn lemma_setting_numbers(v: u8)
    ensures
        v == 0 ==> text_align_h_of(v) == TextAlignH::Left,
        v == 1 ==> text_align_h_of(v) == TextAlignH::Center,
        v == 2 ==> text_align_h_of(v) == TextAlignH::Right,
        v >= 3 ==> text_align_h_of(v) == TextAlignH::Left,
        v == 0 ==> text_align_v_of(v) == TextAlignV::Baseline,
        v == 1 ==> text_align_v_of(v) == TextAlignV::Top,
        v == 2 ==> text_align_v_of(v) == TextAlignV::Center,
        v == 3 ==> text_align_v_of(v) == TextAlignV::Bottom,
        v >= 4 ==> text_align_v_of(v) == TextAlignV::Baseline,
        v == 0 ==> text_wrap_mode_of(v) == TextWrapMode::Word,
        v == 1 ==> text_wrap_mode_of(v) == TextWrapMode::Char,
        v >= 2 ==> text_wrap_mode_of(v) == TextWrapMode::Word,
        v == 0 ==> text_style_of(v) == TextStyle::Normal,
        v == 1 ==> text_style_of(v) == TextStyle::Italic,
        v == 2 ==> text_style_of(v) == TextStyle::Bold,
        v == 3 ==> text_style_of(v) == TextStyle::BoldItalic,
        v >= 4 ==> text_style_of(v) == TextStyle::Normal,
        v == 0 ==> stroke_cap_mode_of(v) == StrokeCapMode::Round,
        v == 1 ==> stroke_cap_mode_of(v) == StrokeCapMode::Square,
        v == 2 ==> stroke_cap_mode_of(v) == StrokeCapMode::Project,
        v >= 3 ==> stroke_cap_mode_of(v) == StrokeCapMode::Round,
        v == 0 ==> stroke_join_mode_of(v) == StrokeJoinMode::Round,
        v == 1 ==> stroke_join_mode_of(v) == StrokeJoinMode::Miter,
        v == 2 ==> stroke_join_mode_of(v) == StrokeJoinMode::Bevel,
        v >= 3 ==> stroke_join_mode_of(v) == StrokeJoinMode::Round,
        v == 0 ==> arc_mode_of(v) == ArcMode::Open,
        v == 1 ==> arc_mode_of(v) == ArcMode::Chord,
        v == 2 ==> arc_mode_of(v) == ArcMode::Pie,
        v >= 3 ==> arc_mode_of(v) == ArcMode::Open,
        v == 0 ==> shape_mode_of(v) == ShapeMode::Corner,
        v == 1 ==> shape_mode_of(v) == ShapeMode::Corners,
        v == 2 ==> shape_mode_of(v) == ShapeMode::Center,
        v == 3 ==> shape_mode_of(v) == ShapeMode::Radius,
        v >= 4 ==> shape_mode_of(v) == ShapeMode::Corner,
        v == 0 ==> shape_kind_of(v) == ShapeKind::Polygon,
        v == 1 ==> shape_kind_of(v) == ShapeKind::Points,
        v == 2 ==> shape_kind_of(v) == ShapeKind::Lines,
        v == 3 ==> shape_kind_of(v) == ShapeKind::Triangles,
        v == 4 ==> shape_kind_of(v) == ShapeKind::TriangleFan,
        v == 5 ==> shape_kind_of(v) == ShapeKind::TriangleStrip,
        v == 6 ==> shape_kind_of(v) == ShapeKind::Quads,
        v == 7 ==> shape_kind_of(v) == ShapeKind::QuadStrip,
        v >= 8 ==> shape_kind_of(v) == ShapeKind::Polygon,
        v == 0 ==> text_direction_of(v) == TextDirection::Auto,
        v == 1 ==> text_direction_of(v) == TextDirection::LeftToRight,
        v == 2 ==> text_direction_of(v) == TextDirection::RightToLeft,
        v >= 3 ==> text_direction_of(v) == TextDirection::Auto,
        v == 0 ==> blend_mode_of(v) == Some(BlendMode::Blend),
        v == 1 ==> blend_mode_of(v) == Some(BlendMode::Add),
        v == 2 ==> blend_mode_of(v) == Some(BlendMode::Subtract),
        v == 3 ==> blend_mode_of(v) == Some(BlendMode::Darkest),
        v == 4 ==> blend_mode_of(v) == Some(BlendMode::Lightest),
        v == 5 ==> blend_mode_of(v) == Some(BlendMode::Difference),
        v == 6 ==> blend_mode_of(v) == Some(BlendMode::Exclusion),
        v == 7 ==> blend_mode_of(v) == Some(BlendMode::Multiply),
        v == 8 ==> blend_mode_of(v) == Some(BlendMode::Screen),
        v == 9 ==> blend_mode_of(v) == Some(BlendMode::Replace),
        v >= 10 ==> blend_mode_of(v) is None,
{
}

proof fn lemma_names_apart(s: Seq<u8>, a: Seq<u8>, b: Seq<u8>, k: int)
    requires
        a.len() == b.len(),
        0 <= k < a.len(),
        ascii_lower(a[k]) != ascii_lower(b[k]),
    ensures
        !(eq_ignore_ascii_case(s, a) && eq_ignore_ascii_case(s, b)),
{
    if eq_ignore_ascii_case(s, a) && eq_ignore_ascii_case(s, b) {
        assert(ascii_lower(s[k]) == ascii_lower(a[k]));
        assert(ascii_lower(s[k]) == ascii_lower(b[k]));
    }
}

/// The names of the horizontal text alignment settings, `left`, `center`, `right`, each parse to
/// their setting whatever the case of their letters; nothing else parses.
pub proof fn lemma_text_align_h_names(s: Seq<u8>)
    ensures
        eq_ignore_ascii_case(s, seq![108u8, 101, 102, 116]) ==> text_align_h_named(s) == Some(TextAlignH::Left),
        eq_ignore_ascii_case(s, seq![99u8, 101, 110, 116, 101, 114]) ==> text_align_h_named(s) == Some(TextAlignH::Center),
        eq_ignore_ascii_case(s, seq![114u8, 105, 103, 104, 116]) ==> text_align_h_named(s) == Some(TextAlignH::Right),
        (!eq_ignore_ascii_case(s, seq![108u8, 101, 102, 116]) && !eq_ignore_ascii_case(s, seq![99u8, 101, 110, 116, 101, 114]) && !eq_ignore_ascii_case(s, seq![114u8, 105, 103, 104, 116])) ==> text_align_h_named(s) is None,
{
    assert(LEFT@ =~= seq![108u8, 101, 102, 116]);
    assert(CENTER@ =~= seq![99u8, 101, 110, 116, 101, 114]);
    assert(RIGHT@ =~= seq![114u8, 105, 103, 104, 116]);
}

/// The names of the vertical text alignment settings, `baseline`, `top`, `center`, `bottom`, each parse to
/// their setting whatever the case of their letters; nothing else parses.
pub proof fn lemma_text_align_v_names(s: Seq<u8>)
    ensures
        eq_ignore_ascii_case(s, seq![98u8, 97, 115, 101, 108, 105, 110, 101]) ==> text_align_v_named(s) == Some(TextAlignV::Baseline),
        eq_ignore_ascii_case(s, seq![116u8, 111, 112]) ==> text_align_v_named(s) == Some(TextAlignV::Top),
        eq_ignore_ascii_case(s, seq![99u8, 101, 110, 116, 101, 114]) ==> text_align_v_named(s) == Some(TextAlignV::Center),
        eq_ignore_ascii_case(s, seq![98u8, 111, 116, 116, 111, 109]) ==> text_align_v_named(s) == Some(TextAlignV::Bottom),
        (!eq_ignore_ascii_case(s, seq![98u8, 97, 115, 101, 108, 105, 110, 101]) && !eq_ignore_ascii_case(s, seq![116u8, 111, 112]) && !eq_ignore_ascii_case(s, seq![99u8, 101, 110, 116, 101, 114]) && !eq_ignore_ascii_case(s, seq![98u8, 111, 116, 116, 111, 109])) ==> text_align_v_named(s) is None,
{
    assert(BASELINE@ =~= seq![98u8, 97, 115, 101, 108, 105, 110, 101]);
    assert(TOP@ =~= seq![116u8, 111, 112]);
    assert(CENTER@ =~= seq![99u8, 101, 110, 116, 101, 114]);
    assert(BOTTOM@ =~= seq![98u8, 111, 116, 116, 111, 109]);
    lemma_names_apart(s, seq![98u8, 111, 116, 116, 111, 109], seq![99u8, 101, 110, 116, 101, 114], 0);
}

/// The names of the text wrapping settings, `word`, `char`, each parse to
/// their setting whatever the case of their letters; nothing else parses.
pub proof fn lemma_text_wrap_mode_names(s: Seq<u8>)
    ensures
        eq_ignore_ascii_case(s, seq![119u8, 111, 114, 100]) ==> text_wrap_mode_named(s) == Some(TextWrapMode::Word),
        eq_ignore_ascii_case(s, seq![99u8, 104, 97, 114]) ==> text_wrap_mode_named(s) == Some(TextWrapMode::Char),
        (!eq_ignore_ascii_case(s, seq![119u8, 111, 114, 100]) && !eq_ignore_ascii_case(s, seq![99u8, 104, 97, 114])) ==> text_wrap_mode_named(s) is None,
{
    assert(WORD@ =~= seq![119u8, 111, 114, 100]);
    assert(CHAR@ =~= seq![99u8, 104, 97, 114]);
    lemma_names_apart(s, seq![99u8, 104, 97, 114], seq![119u8, 111, 114, 100], 0);
}

/// The names of the text style settings, `normal`, `italic`, `bold`, `bold_italic`, each parse to
/// their setting whatever the case of their letters; nothing else parses.
pub proof fn lemma_text_style_names(s: Seq<u8>)
    ensures
        eq_ignore_ascii_case(s, seq![110u8, 111, 114, 109, 97, 108]) ==> text_style_named(s) == Some(TextStyle::Normal),
        eq_ignore_ascii_case(s, seq![105u8, 116, 97, 108, 105, 99]) ==> text_style_named(s) == Some(TextStyle::Italic),
        eq_ignore_ascii_case(s, seq![98u8, 111, 108, 100]) ==> text_style_named(s) == Some(TextStyle::Bold),
        eq_ignore_ascii_case(s, seq![98u8, 111, 108, 100, 95, 105, 116, 97, 108, 105, 99]) ==> text_style_named(s) == Some(TextStyle::BoldItalic),
        (!eq_ignore_ascii_case(s, seq![110u8, 111, 114, 109, 97, 108]) && !eq_ignore_ascii_case(s, seq![105u8, 116, 97, 108, 105, 99]) && !eq_ignore_ascii_case(s, seq![98u8, 111, 108, 100]) && !eq_ignore_ascii_case(s, seq![98u8, 111, 108, 100, 95, 105, 116, 97, 108, 105, 99])) ==> text_style_named(s) is None,
{
    assert(NORMAL@ =~= seq![110u8, 111, 114, 109, 97, 108]);
    assert(ITALIC@ =~= seq![105u8, 116, 97, 108, 105, 99]);
    assert(BOLD@ =~= seq![98u8, 111, 108, 100]);
    assert(BOLD_ITALIC@ =~= seq![98u8, 111, 108, 100, 95, 105, 116, 97, 108, 105, 99]);
    lemma_names_apart(s, seq![105u8, 116, 97, 108, 105, 99], seq![110u8, 111, 114, 109, 97, 108], 0);
}

/// The names of the stroke cap settings, `round`, `square`, `project`, each parse to
/// their setting whatever the case of their letters; nothing else parses.
pub proof fn lemma_stroke_cap_mode_names(s: Seq<u8>)
    ensures
        eq_ignore_ascii_case(s, seq![114u8, 111, 117, 110, 100]) ==> stroke_cap_mode_named(s) == Some(StrokeCapMode::Round),
        eq_ignore_ascii_case(s, seq![115u8, 113, 117, 97, 114, 101]) ==> stroke_cap_mode_named(s) == Some(StrokeCapMode::Square),
        eq_ignore_ascii_case(s, seq![112u8, 114, 111, 106, 101, 99, 116]) ==> stroke_cap_mode_named(s) == Some(StrokeCapMode::Project),
        (!eq_ignore_ascii_case(s, seq![114u8, 111, 117, 110, 100]) && !eq_ignore_ascii_case(s, seq![115u8, 113, 117, 97, 114, 101]) && !eq_ignore_ascii_case(s, seq![112u8, 114, 111, 106, 101, 99, 116])) ==> stroke_cap_mode_named(s) is None,
{
    assert(ROUND@ =~= seq![114u8, 111, 117, 110, 100]);
    assert(SQUARE@ =~= seq![115u8, 113, 117, 97, 114, 101]);
    assert(PROJECT@ =~= seq![112u8, 114, 111, 106, 101, 99, 116]);
}

/// The names of the stroke join settings, `round`, `miter`, `bevel`, each parse to
/// their setting whatever the case of their letters; nothing else parses.
pub proof fn lemma_stroke_join_mode_names(s: Seq<u8>)
    ensures
        eq_ignore_ascii_case(s, seq![114u8, 111, 117, 110, 100]) ==> stroke_join_mode_named(s) == Some(StrokeJoinMode::Round),
        eq_ignore_ascii_case(s, seq![109u8, 105, 116, 101, 114]) ==> stroke_join_mode_named(s) == Some(StrokeJoinMode::Miter),
        eq_ignore_ascii_case(s, seq![98u8, 101, 118, 101, 108]) ==> stroke_join_mode_named(s) == Some(StrokeJoinMode::Bevel),
        (!eq_ignore_ascii_case(s, seq![114u8, 111, 117, 110, 100]) && !eq_ignore_ascii_case(s, seq![109u8, 105, 116, 101, 114]) && !eq_ignore_ascii_case(s, seq![98u8, 101, 118, 101, 108])) ==> stroke_join_mode_named(s) is None,
{
    assert(ROUND@ =~= seq![114u8, 111, 117, 110, 100]);
    assert(MITER@ =~= seq![109u8, 105, 116, 101, 114]);
    assert(BEVEL@ =~= seq![98u8, 101, 118, 101, 108]);
    lemma_names_apart(s, seq![109u8, 105, 116, 101, 114], seq![114u8, 111, 117, 110, 100], 0);
    lemma_names_apart(s, seq![98u8, 101, 118, 101, 108], seq![114u8, 111, 117, 110, 100], 0);
    lemma_names_apart(s, seq![98u8, 101, 118, 101, 108], seq![109u8, 105, 116, 101, 114], 0);
}

/// The names of the arc mode settings, `open`, `chord`, `pie`, each parse to
/// their setting whatever the case of their letters; nothing else parses.
pub proof fn lemma_arc_mode_names(s: Seq<u8>)
    ensures
        eq_ignore_ascii_case(s, seq![111u8, 112, 101, 110]) ==> arc_mode_named(s) == Some(ArcMode::Open),
        eq_ignore_ascii_case(s, seq![99u8, 104, 111, 114, 100]) ==> arc_mode_named(s) == Some(ArcMode::Chord),
        eq_ignore_ascii_case(s, seq![112u8, 105, 101]) ==> arc_mode_named(s) == Some(ArcMode::Pie),
        (!eq_ignore_ascii_case(s, seq![111u8, 112, 101, 110]) && !eq_ignore_ascii_case(s, seq![99u8, 104, 111, 114, 100]) && !eq_ignore_ascii_case(s, seq![112u8, 105, 101])) ==> arc_mode_named(s) is None,
{
    assert(OPEN@ =~= seq![111u8, 112, 101, 110]);
    assert(CHORD@ =~= seq![99u8, 104, 111, 114, 100]);
    assert(PIE@ =~= seq![112u8, 105, 101]);
}

/// The names of the shape mode settings, `corner`, `corners`, `center`, `radius`, each parse to
/// their setting whatever the case of their letters; nothing else parses.
pub proof fn lemma_shape_mode_names(s: Seq<u8>)
    ensures
        eq_ignore_ascii_case(s, seq![99u8, 111, 114, 110, 101, 114]) ==> shape_mode_named(s) == Some(ShapeMode::Corner),
        eq_ignore_ascii_case(s, seq![99u8, 111, 114, 110, 101, 114, 115]) ==> shape_mode_named(s) == Some(ShapeMode::Corners),
        eq_ignore_ascii_case(s, seq![99u8, 101, 110, 116, 101, 114]) ==> shape_mode_named(s) == Some(ShapeMode::Center),
        eq_ignore_ascii_case(s, seq![114u8, 97, 100, 105, 117, 115]) ==> shape_mode_named(s) == Some(ShapeMode::Radius),
        (!eq_ignore_ascii_case(s, seq![99u8, 111, 114, 110, 101, 114]) && !eq_ignore_ascii_case(s, seq![99u8, 111, 114, 110, 101, 114, 115]) && !eq_ignore_ascii_case(s, seq![99u8, 101, 110, 116, 101, 114]) && !eq_ignore_ascii_case(s, seq![114u8, 97, 100, 105, 117, 115])) ==> shape_mode_named(s) is None,
{
    assert(CORNER@ =~= seq![99u8, 111, 114, 110, 101, 114]);
    assert(CORNERS@ =~= seq![99u8, 111, 114, 110, 101, 114, 115]);
    assert(CENTER@ =~= seq![99u8, 101, 110, 116, 101, 114]);
    assert(RADIUS@ =~= seq![114u8, 97, 100, 105, 117, 115]);
    lemma_names_apart(s, seq![99u8, 101, 110, 116, 101, 114], seq![99u8, 111, 114, 110, 101, 114], 1);
    lemma_names_apart(s, seq![114u8, 97, 100, 105, 117, 115], seq![99u8, 111, 114, 110, 101, 114], 0);
    lemma_names_apart(s, seq![114u8, 97, 100, 105, 117, 115], seq![99u8, 101, 110, 116, 101, 114], 0);
}

/// The names of the shape kind settings, `polygon`, `points`, `lines`, `triangles`, `triangle_fan`, `triangle_strip`, `quads`, `quad_strip`, each parse to
/// their setting whatever the case of their letters; nothing else parses.
pub proof fn lemma_shape_kind_names(s: Seq<u8>)
    ensures
        eq_ignore_ascii_case(s, seq![112u8, 111, 108, 121, 103, 111, 110]) ==> shape_kind_named(s) == Some(ShapeKind::Polygon),
        eq_ignore_ascii_case(s, seq![112u8, 111, 105, 110, 116, 115]) ==> shape_kind_named(s) == Some(ShapeKind::Points),
        eq_ignore_ascii_case(s, seq![108u8, 105, 110, 101, 115]) ==> shape_kind_named(s) == Some(ShapeKind::Lines),
        eq_ignore_ascii_case(s, seq![116u8, 114, 105, 97, 110, 103, 108, 101, 115]) ==> shape_kind_named(s) == Some(ShapeKind::Triangles),
        eq_ignore_ascii_case(s, seq![116u8, 114, 105, 97, 110, 103, 108, 101, 95, 102, 97, 110]) ==> shape_kind_named(s) == Some(ShapeKind::TriangleFan),
        eq_ignore_ascii_case(s, seq![116u8, 114, 105, 97, 110, 103, 108, 101, 95, 115, 116, 114, 105, 112]) ==> shape_kind_named(s) == Some(ShapeKind::TriangleStrip),
        eq_ignore_ascii_case(s, seq![113u8, 117, 97, 100, 115]) ==> shape_kind_named(s) == Some(ShapeKind::Quads),
        eq_ignore_ascii_case(s, seq![113u8, 117, 97, 100, 95, 115, 116, 114, 105, 112]) ==> shape_kind_named(s) == Some(ShapeKind::QuadStrip),
        (!eq_ignore_ascii_case(s, seq![112u8, 111, 108, 121, 103, 111, 110]) && !eq_ignore_ascii_case(s, seq![112u8, 111, 105, 110, 116, 115]) && !eq_ignore_ascii_case(s, seq![108u8, 105, 110, 101, 115]) && !eq_ignore_ascii_case(s, seq![116u8, 114, 105, 97, 110, 103, 108, 101, 115]) && !eq_ignore_ascii_case(s, seq![116u8, 114, 105, 97, 110, 103, 108, 101, 95, 102, 97, 110]) && !eq_ignore_ascii_case(s, seq![116u8, 114, 105, 97, 110, 103, 108, 101, 95, 115, 116, 114, 105, 112]) && !eq_ignore_ascii_case(s, seq![113u8, 117, 97, 100, 115]) && !eq_ignore_ascii_case(s, seq![113u8, 117, 97, 100, 95, 115, 116, 114, 105, 112])) ==> shape_kind_named(s) is None,
{
    assert(POLYGON@ =~= seq![112u8, 111, 108, 121, 103, 111, 110]);
    assert(POINTS@ =~= seq![112u8, 111, 105, 110, 116, 115]);
    assert(LINES@ =~= seq![108u8, 105, 110, 101, 115]);
    assert(TRIANGLES@ =~= seq![116u8, 114, 105, 97, 110, 103, 108, 101, 115]);
    assert(TRIANGLE_FAN@ =~= seq![116u8, 114, 105, 97, 110, 103, 108, 101, 95, 102, 97, 110]);
    assert(TRIANGLE_STRIP@ =~= seq![116u8, 114, 105, 97, 110, 103, 108, 101, 95, 115, 116, 114, 105, 112]);
    assert(QUADS@ =~= seq![113u8, 117, 97, 100, 115]);
    assert(QUAD_STRIP@ =~= seq![113u8, 117, 97, 100, 95, 115, 116, 114, 105, 112]);
    lemma_names_apart(s, seq![113u8, 117, 97, 100, 115], seq![108u8, 105, 110, 101, 115], 0);
}


/// The blend factors are numbered `0..=10` and the operations `0..=4`, each
/// in declaration order; larger numbers name none.
pub proof fn lemma_blend_part_numbers(v: u8)
    ensures
        v == 0 ==> blend_factor_of(v) == Some(BlendFactor::Zero),
        v == 1 ==> blend_factor_of(v) == Some(BlendFactor::One),
        v == 2 ==> blend_factor_of(v) == Some(BlendFactor::Src),
        v == 3 ==> blend_factor_of(v) == Some(BlendFactor::OneMinusSrc),
        v == 4 ==> blend_factor_of(v) == Some(BlendFactor::SrcAlpha),
        v == 5 ==> blend_factor_of(v) == Some(BlendFactor::OneMinusSrcAlpha),
        v == 6 ==> blend_factor_of(v) == Some(BlendFactor::Dst),
        v == 7 ==> blend_factor_of(v) == Some(BlendFactor::OneMinusDst),
        v == 8 ==> blend_factor_of(v) == Some(BlendFactor::DstAlpha),
        v == 9 ==> blend_factor_of(v) == Some(BlendFactor::OneMinusDstAlpha),
        v == 10 ==> blend_factor_of(v) == Some(BlendFactor::SrcAlphaSaturated),
        v > 10 ==> blend_factor_of(v) is None,
        v == 0 ==> blend_operation_of(v) == Some(BlendOperation::Add),
        v == 1 ==> blend_operation_of(v) == Some(BlendOperation::Subtract),
        v == 2 ==> blend_operation_of(v) == Some(BlendOperation::ReverseSubtract),
        v == 3 ==> blend_operation_of(v) == Some(BlendOperation::Min),
        v == 4 ==> blend_operation_of(v) == Some(BlendOperation::Max),
        v > 4 ==> blend_operation_of(v) is None,
{
}

/// A custom blend state is built from six codes: when all name a factor or
/// operation, the color equation is made of the first three and the alpha
/// equation of the last three, each in that order (source factor,
/// destination factor, operation); otherwise the first code, in that order,
/// that names nothing is reported.
pub proof fn lemma_custom_blend(cs: u8, cd: u8, co: u8, as_: u8, ad: u8, ao: u8)
    ensures
        (blend_factor_of(cs) is Some && blend_factor_of(cd) is Some && blend_operation_of(co) is Some
            && blend_factor_of(as_) is Some && blend_factor_of(ad) is Some && blend_operation_of(ao) is Some)
            ==> custom_blend_result(cs, cd, co, as_, ad, ao) == Ok::<BlendState, ProcessingError>(
            BlendState {
                color: BlendComponent {
                    src_factor: blend_factor_of(cs)->0,
                    dst_factor: blend_factor_of(cd)->0,
                    operation: blend_operation_of(co)->0,
                },
                alpha: BlendComponent {
                    src_factor: blend_factor_of(as_)->0,
                    dst_factor: blend_factor_of(ad)->0,
                    operation: blend_operation_of(ao)->0,
                },
            },
        ),
        blend_factor_of(cs) is None ==> custom_blend_result(cs, cd, co, as_, ad, ao) == Err::<
            BlendState,
            ProcessingError,
        >(ProcessingError::InvalidArgument(InvalidArgument::UnknownBlendFactor(cs))),
        (blend_factor_of(cs) is Some && blend_factor_of(cd) is None) ==> custom_blend_result(
            cs,
            cd,
            co,
            as_,
            ad,
            ao,
        ) == Err::<BlendState, ProcessingError>(
            ProcessingError::InvalidArgument(InvalidArgument::UnknownBlendFactor(cd)),
        ),
        (blend_factor_of(cs) is Some && blend_factor_of(cd) is Some && blend_operation_of(co) is None)
            ==> custom_blend_result(cs, cd, co, as_, ad, ao) == Err::<BlendState, ProcessingError>(
            ProcessingError::InvalidArgument(InvalidArgument::UnknownBlendOperation(co)),
        ),
{
}

} // verus!
