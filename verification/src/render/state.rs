//! The drawing state that draw commands set, and how each state command
//! changes it.
//!
//! Colors, sizes and matrices are floating point and are carried through as
//! the type parameters `C`, `F` and `M`; shape vertices as `V`. The drawing
//! commands themselves (rectangles, text, meshes) read this state outside.
use crate::entity::EntityId;
use crate::render::command::{
    BlendState, ShapeKind, ShapeMode, StrokeCapMode, StrokeJoinMode, TextAlignH, TextAlignV,
    TextDirection, TextStyle, TextWrapMode,
};
use crate::render::material_key::{initial_key, key_of_pbr, pbr_of, MaterialKey, PbrFields};
use crate::render::shape::ShapeBuilder;
use crate::render::text_settings::{remove_tagged, set_tagged, with_tag, without_tag};
use crate::render::transform::{popped, pushed, with_current, TransformStack};
use vstd::prelude::*;

verus! {

/// A command that changes the drawing state without drawing.
pub enum StateCommand<C, F, M, V> {
    Fill(C),
    /// Fill particles with per-instance colors from a buffer.
    FillBuffer(EntityId),
    NoFill,
    StrokeColor(C),
    NoStroke,
    StrokeWeight(F),
    StrokeCap(StrokeCapMode),
    StrokeJoin(StrokeJoinMode),
    Tint(C),
    NoTint,
    ImageMode(ShapeMode),
    RectMode(ShapeMode),
    EllipseMode(ShapeMode),
    BlendMode(Option<BlendState>),
    PushMatrix,
    PopMatrix,
    /// Makes the given identity current.
    ResetMatrix(M),
    /// Makes the given matrix current (a transform composed onto it).
    SetMatrix(M),
    BeginShape(ShapeKind),
    ShapeVertex(V),
    BeginContour,
    EndContour,
    EndShape,
    TextStyle(TextStyle),
    TextWeight(F),
    TextVariation([u8; 4], F),
    ClearTextVariations,
    TextFeature([u8; 4], u16),
    NoTextFeature([u8; 4]),
    ClearTextFeatures,
    TextSize(F),
    TextAlign(TextAlignH, TextAlignV),
    TextLeading(F),
    TextWrap(TextWrapMode),
    /// Physically based roughness, scaled to `0..=255`.
    Roughness(u8),
    /// Physically based metallic, scaled to `0..=255`.
    Metallic(u8),
    /// Physically based emission, as 8-bit RGBA.
    Emissive([u8; 4]),
    /// Flat color, transparent when the fill is not opaque.
    Unlit(bool),
    /// A custom shader material.
    Material(EntityId),
    /// The font: the default one, a font that was found (its family), or a
    /// font entity that is not a font (nothing changes).
    TextFont(FontChoice),
    TextDirection(TextDirection),
    /// One color per glyph for the next text.
    TextGlyphColors(Vec<C>),
}

/// What a font command names.
#[derive(Debug, Clone, PartialEq, Eq)]
pub enum FontChoice {
    /// Back to the default font.
    Default,
    /// A loaded font, by family name.
    Found(String),
    /// An entity that holds no font.
    Missing,
}

/// The drawing state of one graphics target.
pub struct RenderState<C, F, M, V> {
    pub fill_color: Option<C>,
    /// Per-instance fill colors for particles; never set together with
    /// `fill_color`.
    pub fill_buffer: Option<EntityId>,
    pub stroke_color: Option<C>,
    pub stroke_weight: F,
    pub stroke_cap: StrokeCapMode,
    pub stroke_join: StrokeJoinMode,
    pub blend_state: Option<BlendState>,
    pub transform: TransformStack<M>,
    pub tint_color: Option<C>,
    pub image_mode: ShapeMode,
    pub rect_mode: ShapeMode,
    pub ellipse_mode: ShapeMode,
    /// The shape between `beginShape` and `endShape`, if any.
    pub shape_builder: Option<ShapeBuilder<V>>,
    pub text_style: TextStyle,
    pub text_weight: Option<F>,
    pub text_variations: Vec<([u8; 4], F)>,
    pub text_features: Vec<([u8; 4], u16)>,
    pub text_size: F,
    pub text_align_h: TextAlignH,
    pub text_align_v: TextAlignV,
    /// The line height, when set; a new text size clears it.
    pub text_leading: Option<F>,
    pub text_wrap: TextWrapMode,
    /// The material draws use.
    pub material_key: MaterialKey,
    /// The font family, when not the default font.
    pub text_font_family: Option<String>,
    pub text_direction: TextDirection,
    /// Colors per glyph, used up by the next text drawn.
    pub text_glyph_colors: Option<Vec<C>>,
}

/// The glyph colors as a sequence.
pub open spec fn glyph_view<C>(g: Option<Vec<C>>) -> Option<Seq<C>> {
    match g {
        Some(v) => Some(v@),
        None => None,
    }
}

/// A shape builder's kind, contours and contour flag.
pub open spec fn shape_view<V>(b: Option<ShapeBuilder<V>>) -> Option<(ShapeKind, Seq<Seq<V>>, bool)> {
    match b {
        Some(sb) => Some((sb.kind, sb.contour_seqs(), sb.in_contour)),
        None => None,
    }
}

impl<C: Copy, F: Copy, M: Copy, V> RenderState<C, F, M, V> {
    /// A fill color and a fill buffer are never both set, and a shape under
    /// construction has its outer contour.
    pub open spec fn wf(&self) -> bool {
        &&& !(self.fill_color is Some && self.fill_buffer is Some)
        &&& self.shape_builder matches Some(sb) ==> sb.wf()
    }

    /// Every field of `self` holds what the same field of `b` holds
    /// (vectors, the matrix stack and the shape compared by contents).
    pub open spec fn same_as(&self, b: &Self) -> bool {
        &&& self.fill_color == b.fill_color
        &&& self.fill_buffer == b.fill_buffer
        &&& self.stroke_color == b.stroke_color
        &&& self.stroke_weight == b.stroke_weight
        &&& self.stroke_cap == b.stroke_cap
        &&& self.stroke_join == b.stroke_join
        &&& self.blend_state == b.blend_state
        &&& self.transform@ == b.transform@
        &&& self.tint_color == b.tint_color
        &&& self.image_mode == b.image_mode
        &&& self.rect_mode == b.rect_mode
        &&& self.ellipse_mode == b.ellipse_mode
        &&& shape_view(self.shape_builder) == shape_view(b.shape_builder)
        &&& self.text_style == b.text_style
        &&& self.text_weight == b.text_weight
        &&& self.text_variations@ == b.text_variations@
        &&& self.text_features@ == b.text_features@
        &&& self.text_size == b.text_size
        &&& self.text_align_h == b.text_align_h
        &&& self.text_align_v == b.text_align_v
        &&& self.text_leading == b.text_leading
        &&& self.text_wrap == b.text_wrap
        &&& self.material_key == b.material_key
        &&& self.text_font_family == b.text_font_family
        &&& self.text_direction == b.text_direction
        &&& glyph_view(self.text_glyph_colors) == glyph_view(b.text_glyph_colors)
    }
}

/// The shape view after `vt` is added to the builder's target contour.
pub open spec fn shape_with_vertex<V>(sb: ShapeBuilder<V>, vt: V) -> Option<(ShapeKind, Seq<Seq<V>>, bool)> {
    Some((sb.kind, sb.contour_seqs().update(sb.target(), sb.contour_seqs()[sb.target()].push(vt)), sb.in_contour))
}

impl<C: Copy, F: Copy, M: Copy, V> RenderState<C, F, M, V> {
    /// `b` is the state after command `cmd` on state `a`: the fields the
    /// command sets have their new values, all others are as in `a`.
    pub open spec fn applied(a: &Self, cmd: &StateCommand<C, F, M, V>, b: &Self) -> bool {
        match *cmd {
            StateCommand::Fill(c) => b.same_as(
                &RenderState { fill_color: Some(c), fill_buffer: None, ..*a },
            ),
            StateCommand::FillBuffer(e) => b.same_as(
                &RenderState { fill_color: None, fill_buffer: Some(e), ..*a },
            ),
            StateCommand::NoFill => b.same_as(&RenderState { fill_color: None, fill_buffer: None, ..*a }),
            StateCommand::StrokeColor(c) => b.same_as(&RenderState { stroke_color: Some(c), ..*a }),
            StateCommand::NoStroke => b.same_as(&RenderState { stroke_color: None, ..*a }),
            StateCommand::StrokeWeight(w) => b.same_as(&RenderState { stroke_weight: w, ..*a }),
            StateCommand::StrokeCap(m) => b.same_as(&RenderState { stroke_cap: m, ..*a }),
            StateCommand::StrokeJoin(m) => b.same_as(&RenderState { stroke_join: m, ..*a }),
            StateCommand::Tint(c) => b.same_as(&RenderState { tint_color: Some(c), ..*a }),
            StateCommand::NoTint => b.same_as(&RenderState { tint_color: None, ..*a }),
            StateCommand::ImageMode(m) => b.same_as(&RenderState { image_mode: m, ..*a }),
            StateCommand::RectMode(m) => b.same_as(&RenderState { rect_mode: m, ..*a }),
            StateCommand::EllipseMode(m) => b.same_as(&RenderState { ellipse_mode: m, ..*a }),
            StateCommand::BlendMode(bs) => b.same_as(&RenderState { blend_state: bs, ..*a }),
            StateCommand::PushMatrix => b.transform@ == pushed(a.transform@) && b.same_as(
                &RenderState { transform: b.transform, ..*a },
            ),
            StateCommand::PopMatrix => b.transform@ == popped(a.transform@) && b.same_as(
                &RenderState { transform: b.transform, ..*a },
            ),
            StateCommand::ResetMatrix(m) => b.transform@ == with_current(a.transform@, m) && b.same_as(
                &RenderState { transform: b.transform, ..*a },
            ),
            StateCommand::SetMatrix(m) => b.transform@ == with_current(a.transform@, m) && b.same_as(
                &RenderState { transform: b.transform, ..*a },
            ),
            StateCommand::BeginShape(k) => shape_view(b.shape_builder) == Some(
                (k, seq![Seq::<V>::empty()], false),
            ) && b.same_as(&RenderState { shape_builder: b.shape_builder, ..*a }),
            StateCommand::ShapeVertex(vt) => match a.shape_builder {
                Some(sb) => shape_view(b.shape_builder) == shape_with_vertex(sb, vt) && b.same_as(
                    &RenderState { shape_builder: b.shape_builder, ..*a },
                ),
                None => b.same_as(a),
            },
            StateCommand::BeginContour => match a.shape_builder {
                Some(sb) => shape_view(b.shape_builder) == Some(
                    (sb.kind, sb.contour_seqs().push(Seq::<V>::empty()), true),
                ) && b.same_as(&RenderState { shape_builder: b.shape_builder, ..*a }),
                None => b.same_as(a),
            },
            StateCommand::EndContour => match a.shape_builder {
                Some(sb) => shape_view(b.shape_builder) == Some((sb.kind, sb.contour_seqs(), false))
                    && b.same_as(&RenderState { shape_builder: b.shape_builder, ..*a }),
                None => b.same_as(a),
            },
            StateCommand::EndShape => b.shape_builder is None && b.same_as(
                &RenderState { shape_builder: b.shape_builder, ..*a },
            ),
            StateCommand::TextStyle(t) => b.same_as(&RenderState { text_style: t, ..*a }),
            StateCommand::TextWeight(w) => b.same_as(&RenderState { text_weight: Some(w), ..*a }),
            StateCommand::TextVariation(tag, v) => b.text_variations@ == with_tag(
                a.text_variations@,
                tag,
                v,
            ) && b.same_as(&RenderState { text_variations: b.text_variations, ..*a }),
            StateCommand::ClearTextVariations => b.text_variations@ == Seq::<([u8; 4], F)>::empty()
                && b.same_as(&RenderState { text_variations: b.text_variations, ..*a }),
            StateCommand::TextFeature(tag, v) => b.text_features@ == with_tag(a.text_features@, tag, v)
                && b.same_as(&RenderState { text_features: b.text_features, ..*a }),
            StateCommand::NoTextFeature(tag) => b.text_features@ == without_tag(a.text_features@, tag)
                && b.same_as(&RenderState { text_features: b.text_features, ..*a }),
            StateCommand::ClearTextFeatures => b.text_features@ == Seq::<([u8; 4], u16)>::empty()
                && b.same_as(&RenderState { text_features: b.text_features, ..*a }),
            StateCommand::TextSize(sz) => b.same_as(
                &RenderState { text_size: sz, text_leading: None, ..*a },
            ),
            StateCommand::TextAlign(h, v) => b.same_as(
                &RenderState { text_align_h: h, text_align_v: v, ..*a },
            ),
            StateCommand::TextLeading(l) => b.same_as(&RenderState { text_leading: Some(l), ..*a }),
            StateCommand::TextWrap(w) => b.same_as(&RenderState { text_wrap: w, ..*a }),
            StateCommand::Roughness(r) => b.same_as(
                &RenderState {
                    material_key: key_of_pbr(
                        PbrFields { roughness: r, blend_state: None, ..pbr_of(a.material_key) },
                    ),
                    ..*a
                },
            ),
            StateCommand::Metallic(m) => b.same_as(
                &RenderState {
                    material_key: key_of_pbr(
                        PbrFields { metallic: m, blend_state: None, ..pbr_of(a.material_key) },
                    ),
                    ..*a
                },
            ),
            StateCommand::Emissive(e) => b.same_as(
                &RenderState {
                    material_key: key_of_pbr(
                        PbrFields { emissive: e, blend_state: None, ..pbr_of(a.material_key) },
                    ),
                    ..*a
                },
            ),
            StateCommand::Unlit(t) => b.same_as(
                &RenderState {
                    material_key: MaterialKey::Color { transparent: t, blend_state: None },
                    ..*a
                },
            ),
            StateCommand::Material(e) => b.same_as(
                &RenderState {
                    material_key: MaterialKey::Custom { entity: e, blend_state: None },
                    ..*a
                },
            ),
            StateCommand::TextFont(f) => match f {
                FontChoice::Default => b.same_as(&RenderState { text_font_family: None, ..*a }),
                FontChoice::Found(name) => b.same_as(
                    &RenderState { text_font_family: Some(name), ..*a },
                ),
                FontChoice::Missing => b.same_as(a),
            },
            StateCommand::TextDirection(d) => b.same_as(&RenderState { text_direction: d, ..*a }),
            StateCommand::TextGlyphColors(g) => glyph_view(b.text_glyph_colors) == Some(g@) && b.same_as(
                &RenderState { text_glyph_colors: b.text_glyph_colors, ..*a },
            ),
        }
    }

    /// The style commands.
    spec fn is_style_command(cmd: &StateCommand<C, F, M, V>) -> bool {
        ||| cmd is Fill
        ||| cmd is FillBuffer
        ||| cmd is NoFill
        ||| cmd is StrokeColor
        ||| cmd is NoStroke
        ||| cmd is StrokeWeight
        ||| cmd is StrokeCap
        ||| cmd is StrokeJoin
        ||| cmd is Tint
        ||| cmd is NoTint
        ||| cmd is ImageMode
        ||| cmd is RectMode
        ||| cmd is EllipseMode
        ||| cmd is BlendMode
    }

    /// The matrix commands.
    spec fn is_matrix_command(cmd: &StateCommand<C, F, M, V>) -> bool {
        ||| cmd is PushMatrix
        ||| cmd is PopMatrix
        ||| cmd is ResetMatrix
        ||| cmd is SetMatrix
    }

    /// The shape commands.
    spec fn is_shape_command(cmd: &StateCommand<C, F, M, V>) -> bool {
        ||| cmd is BeginShape
        ||| cmd is ShapeVertex
        ||| cmd is BeginContour
        ||| cmd is EndContour
    }

    /// The text commands.
    spec fn is_text_command(cmd: &StateCommand<C, F, M, V>) -> bool {
        ||| cmd is TextStyle
        ||| cmd is TextWeight
        ||| cmd is TextVariation
        ||| cmd is ClearTextVariations
        ||| cmd is TextFeature
        ||| cmd is NoTextFeature
        ||| cmd is ClearTextFeatures
        ||| cmd is TextSize
        ||| cmd is TextAlign
        ||| cmd is TextLeading
        ||| cmd is TextWrap
    }

    /// Carries out a style command.
    #[verifier::spinoff_prover]
    fn apply_style(&mut self, cmd: StateCommand<C, F, M, V>)
        requires
            old(self).wf(),
            Self::is_style_command(&cmd),
        ensures
            final(self).wf(),
            Self::applied(old(self), &cmd, final(self)),
    {
        match cmd {
            StateCommand::Fill(c) => {
                self.fill_color = Some(c);
                self.fill_buffer = None;
            },
            StateCommand::FillBuffer(e) => {
                self.fill_buffer = Some(e);
                self.fill_color = None;
            },
            StateCommand::NoFill => {
                self.fill_color = None;
                self.fill_buffer = None;
            },
            StateCommand::StrokeColor(c) => {
                self.stroke_color = Some(c);
            },
            StateCommand::NoStroke => {
                self.stroke_color = None;
            },
            StateCommand::StrokeWeight(w) => {
                self.stroke_weight = w;
            },
            StateCommand::StrokeCap(m) => {
                self.stroke_cap = m;
            },
            StateCommand::StrokeJoin(m) => {
                self.stroke_join = m;
            },
            StateCommand::Tint(c) => {
                self.tint_color = Some(c);
            },
            StateCommand::NoTint => {
                self.tint_color = None;
            },
            StateCommand::ImageMode(m) => {
                self.image_mode = m;
            },
            StateCommand::RectMode(m) => {
                self.rect_mode = m;
            },
            StateCommand::EllipseMode(m) => {
                self.ellipse_mode = m;
            },
            StateCommand::BlendMode(bs) => {
                self.blend_state = bs;
            },
            _ => {},
        }
    }

    /// Carries out a matrix command.
    #[verifier::spinoff_prover]
    fn apply_matrix(&mut self, cmd: StateCommand<C, F, M, V>)
        requires
            old(self).wf(),
            Self::is_matrix_command(&cmd),
        ensures
            final(self).wf(),
            Self::applied(old(self), &cmd, final(self)),
    {
        match cmd {
            StateCommand::PushMatrix => {
                self.transform.push();
            },
            StateCommand::PopMatrix => {
                self.transform.pop();
            },
            StateCommand::ResetMatrix(m) => {
                self.transform.reset(m);
            },
            StateCommand::SetMatrix(m) => {
                self.transform.set_current(m);
            },
            _ => {},
        }
    }

    /// Carries out a shape command.
    #[verifier::spinoff_prover]
    #[verifier::rlimit(60)]
    fn apply_shape(&mut self, cmd: StateCommand<C, F, M, V>)
        requires
            old(self).wf(),
            Self::is_shape_command(&cmd),
        ensures
            final(self).wf(),
            Self::applied(old(self), &cmd, final(self)),
    {
        match cmd {
            StateCommand::BeginShape(k) => {
                self.shape_builder = Some(ShapeBuilder::new(k));
            },
            StateCommand::ShapeVertex(vt) => {
                let taken = self.shape_builder.take();
                if let Some(mut sb) = taken {
                    sb.push_vertex(vt);
                    self.shape_builder = Some(sb);
                }
            },
            StateCommand::BeginContour => {
                let taken = self.shape_builder.take();
                if let Some(mut sb) = taken {
                    sb.begin_contour();
                    self.shape_builder = Some(sb);
                }
            },
            StateCommand::EndContour => {
                let taken = self.shape_builder.take();
                if let Some(mut sb) = taken {
                    sb.end_contour();
                    self.shape_builder = Some(sb);
                }
            },
            _ => {},
        }
    }

    /// Carries out a text command.
    #[verifier::spinoff_prover]
    fn apply_text(&mut self, cmd: StateCommand<C, F, M, V>)
        requires
            old(self).wf(),
            Self::is_text_command(&cmd),
        ensures
            final(self).wf(),
            Self::applied(old(self), &cmd, final(self)),
    {
        match cmd {
            StateCommand::TextStyle(t) => {
                self.text_style = t;
            },
            StateCommand::TextWeight(w) => {
                self.text_weight = Some(w);
            },
            StateCommand::TextVariation(tag, v) => {
                set_tagged(&mut self.text_variations, tag, v);
            },
            StateCommand::ClearTextVariations => {
                self.text_variations.clear();
            },
            StateCommand::TextFeature(tag, v) => {
                set_tagged(&mut self.text_features, tag, v);
            },
            StateCommand::NoTextFeature(tag) => {
                remove_tagged(&mut self.text_features, tag);
            },
            StateCommand::ClearTextFeatures => {
                self.text_features.clear();
            },
            StateCommand::TextSize(sz) => {
                self.text_size = sz;
                self.text_leading = None;
            },
            StateCommand::TextAlign(h, v) => {
                self.text_align_h = h;
                self.text_align_v = v;
            },
            StateCommand::TextLeading(l) => {
                self.text_leading = Some(l);
            },
            StateCommand::TextWrap(w) => {
                self.text_wrap = w;
            },
            _ => {},
        }
    }

    /// The material and font commands.
    spec fn is_material_command(cmd: &StateCommand<C, F, M, V>) -> bool {
        ||| cmd is Roughness
        ||| cmd is Metallic
        ||| cmd is Emissive
        ||| cmd is Unlit
        ||| cmd is Material
        ||| cmd is TextFont
        ||| cmd is TextDirection
        ||| cmd is TextGlyphColors
    }

    /// Carries out a material or font command.
    #[verifier::spinoff_prover]
    fn apply_material(&mut self, cmd: StateCommand<C, F, M, V>)
        requires
            old(self).wf(),
            Self::is_material_command(&cmd),
        ensures
            final(self).wf(),
            Self::applied(old(self), &cmd, final(self)),
    {
        match cmd {
            StateCommand::Roughness(r) => {
                let p = self.material_key.as_pbr();
                self.material_key = MaterialKey::from(PbrFields { roughness: r, blend_state: None, ..p });
            },
            StateCommand::Metallic(m) => {
                let p = self.material_key.as_pbr();
                self.material_key = MaterialKey::from(PbrFields { metallic: m, blend_state: None, ..p });
            },
            StateCommand::Emissive(e) => {
                let p = self.material_key.as_pbr();
                self.material_key = MaterialKey::from(PbrFields { emissive: e, blend_state: None, ..p });
            },
            StateCommand::Unlit(t) => {
                self.material_key = MaterialKey::Color { transparent: t, blend_state: None };
            },
            StateCommand::Material(e) => {
                self.material_key = MaterialKey::Custom { entity: e, blend_state: None };
            },
            StateCommand::TextFont(f) => match f {
                FontChoice::Default => {
                    self.text_font_family = None;
                },
                FontChoice::Found(name) => {
                    self.text_font_family = Some(name);
                },
                FontChoice::Missing => {},
            },
            StateCommand::TextDirection(d) => {
                self.text_direction = d;
            },
            StateCommand::TextGlyphColors(g) => {
                self.text_glyph_colors = Some(g);
            },
            _ => {},
        }
    }

    /// Hands the glyph colors to the text being drawn; they apply to that
    /// text only.
    pub fn take_glyph_colors(&mut self) -> (r: Option<Vec<C>>)
        requires
            old(self).wf(),
        ensures
            final(self).wf(),
            glyph_view(r) == glyph_view(old(self).text_glyph_colors),
            final(self).text_glyph_colors is None,
            final(self).same_as(&RenderState { text_glyph_colors: None, ..*old(self) }),
    {
        self.text_glyph_colors.take()
    }

    /// Carries out a state command; `endShape` hands back the finished
    /// shape, if one was begun.
    pub fn apply(&mut self, cmd: StateCommand<C, F, M, V>) -> (r: Option<ShapeBuilder<V>>)
        requires
            old(self).wf(),
        ensures
            final(self).wf(),
            Self::applied(old(self), &cmd, final(self)),
            cmd is EndShape ==> shape_view(r) == shape_view(old(self).shape_builder) && (r matches Some(
                sb,
            ) ==> sb.wf()),
            !(cmd is EndShape) ==> r is None,
    {
        let group: u8 = match &cmd {
            StateCommand::EndShape => 0,
            StateCommand::Fill(..) | StateCommand::FillBuffer(..) | StateCommand::NoFill | StateCommand::StrokeColor(..) | StateCommand::NoStroke | StateCommand::StrokeWeight(..) | StateCommand::StrokeCap(..) | StateCommand::StrokeJoin(..) | StateCommand::Tint(..) | StateCommand::NoTint | StateCommand::ImageMode(..) | StateCommand::RectMode(..) | StateCommand::EllipseMode(..) | StateCommand::BlendMode(..) => 1,
            StateCommand::PushMatrix | StateCommand::PopMatrix | StateCommand::ResetMatrix(..) | StateCommand::SetMatrix(..) => 2,
            StateCommand::BeginShape(..) | StateCommand::ShapeVertex(..) | StateCommand::BeginContour | StateCommand::EndContour => 3,
            StateCommand::TextStyle(..) | StateCommand::TextWeight(..) | StateCommand::TextVariation(..) | StateCommand::ClearTextVariations | StateCommand::TextFeature(..) | StateCommand::NoTextFeature(..) | StateCommand::ClearTextFeatures | StateCommand::TextSize(..) | StateCommand::TextAlign(..) | StateCommand::TextLeading(..) | StateCommand::TextWrap(..) => 4,
            StateCommand::Roughness(..) | StateCommand::Metallic(..) | StateCommand::Emissive(..) | StateCommand::Unlit(..) | StateCommand::Material(..) | StateCommand::TextFont(..) | StateCommand::TextDirection(..) | StateCommand::TextGlyphColors(..) => 5,
        };
        if group == 0 {
            return self.shape_builder.take();
        } else if group == 1 {
            self.apply_style(cmd);
        } else if group == 2 {
            self.apply_matrix(cmd);
        } else if group == 3 {
            self.apply_shape(cmd);
        } else if group == 4 {
            self.apply_text(cmd);
        } else {
            self.apply_material(cmd);
        }
        None
    }
}

/// The values a fresh drawing state starts from that the library does not
/// choose itself: white and black, a stroke weight of one, a text size of
/// twelve, and the identity matrix.
#[derive(Clone, Copy)]
pub struct StateDefaults<C, F, M> {
    pub fill: C,
    pub stroke: C,
    pub stroke_weight: F,
    pub text_size: F,
    pub identity: M,
}

/// A fresh drawing state: filled with the default fill, stroked with the
/// default stroke, round caps and joins, corner image and rectangle modes,
/// centred ellipses, normal left-aligned word-wrapped text on the baseline in
/// the default font and direction, an opaque flat-color material, nothing
/// else set.
pub open spec fn is_fresh<C, F, M, V>(s: RenderState<C, F, M, V>, d: StateDefaults<C, F, M>) -> bool {
    &&& s.fill_color == Some(d.fill)
    &&& s.fill_buffer is None
    &&& s.stroke_color == Some(d.stroke)
    &&& s.stroke_weight == d.stroke_weight
    &&& s.stroke_cap == StrokeCapMode::Round
    &&& s.stroke_join == StrokeJoinMode::Round
    &&& s.blend_state is None
    &&& s.transform@ == (d.identity, Seq::<M>::empty())
    &&& s.tint_color is None
    &&& s.image_mode == ShapeMode::Corner
    &&& s.rect_mode == ShapeMode::Corner
    &&& s.ellipse_mode == ShapeMode::Center
    &&& s.shape_builder is None
    &&& s.text_style == TextStyle::Normal
    &&& s.text_weight is None
    &&& s.text_variations@ == Seq::<([u8; 4], F)>::empty()
    &&& s.text_features@ == Seq::<([u8; 4], u16)>::empty()
    &&& s.text_size == d.text_size
    &&& s.text_align_h == TextAlignH::Left
    &&& s.text_align_v == TextAlignV::Baseline
    &&& s.text_leading is None
    &&& s.text_wrap == TextWrapMode::Word
    &&& s.material_key == initial_key()
    &&& s.text_font_family is None
    &&& s.text_direction == TextDirection::Auto
    &&& s.text_glyph_colors is None
}

impl<C: Copy, F: Copy, M: Copy, V> RenderState<C, F, M, V> {
    /// A fresh drawing state.
    pub fn new(d: StateDefaults<C, F, M>) -> (r: Self)
        ensures
            r.wf(),
            is_fresh(r, d),
    {
        RenderState {
            fill_color: Some(d.fill),
            fill_buffer: None,
            stroke_color: Some(d.stroke),
            stroke_weight: d.stroke_weight,
            stroke_cap: StrokeCapMode::Round,
            stroke_join: StrokeJoinMode::Round,
            blend_state: None,
            transform: TransformStack::new(d.identity),
            tint_color: None,
            image_mode: ShapeMode::Corner,
            rect_mode: ShapeMode::Corner,
            ellipse_mode: ShapeMode::Center,
            shape_builder: None,
            text_style: TextStyle::Normal,
            text_weight: None,
            text_variations: Vec::new(),
            text_features: Vec::new(),
            text_size: d.text_size,
            text_align_h: TextAlignH::Left,
            text_align_v: TextAlignV::Baseline,
            text_leading: None,
            text_wrap: TextWrapMode::Word,
            material_key: MaterialKey::Color { transparent: false, blend_state: None },
            text_font_family: None,
            text_direction: TextDirection::Auto,
            text_glyph_colors: None,
        }
    }

    /// Returns every setting to a fresh state's.
    pub fn reset(&mut self, d: StateDefaults<C, F, M>)
        ensures
            final(self).wf(),
            is_fresh(*final(self), d),
    {
        *self = Self::new(d);
    }

    /// Starts a frame: the matrix stack starts over at `identity` and an
    /// unfinished shape is dropped; the style settings carry over.
    pub fn begin_frame(&mut self, identity: M)
        requires
            old(self).wf(),
        ensures
            final(self).wf(),
            final(self).transform@ == (identity, Seq::<M>::empty()),
            final(self).shape_builder is None,
            final(self).same_as(
                &RenderState { transform: final(self).transform, shape_builder: None, ..*old(self) },
            ),
    {
        self.transform = TransformStack::new(identity);
        self.shape_builder = None;
    }
}

/// `pushMatrix`, any change of the current matrix, then `popMatrix` leave the
/// whole drawing state as it was.
pub proof fn lemma_push_set_pop_restores<C: Copy, F: Copy, M: Copy, V>(
    a: RenderState<C, F, M, V>,
    b: RenderState<C, F, M, V>,
    c: RenderState<C, F, M, V>,
    d: RenderState<C, F, M, V>,
    m: M,
)
    requires
        RenderState::applied(&a, &StateCommand::PushMatrix, &b),
        RenderState::applied(&b, &StateCommand::SetMatrix(m), &c),
        RenderState::applied(&c, &StateCommand::PopMatrix, &d),
    ensures
        d.same_as(&a),
{
    crate::render::transform::lemma_pop_undoes_push(a.transform@, m);
}

/// A new text size clears the leading, so text falls back to the size's
/// default line height.
pub proof fn lemma_text_size_clears_leading<C: Copy, F: Copy, M: Copy, V>(
    a: RenderState<C, F, M, V>,
    b: RenderState<C, F, M, V>,
    size: F,
)
    requires
        RenderState::applied(&a, &StateCommand::TextSize(size), &b),
    ensures
        b.text_leading is None,
        b.text_size == size,
{
}

/// What each drawing setting does to the state: it sets its own setting
/// and keeps the others. A fill color and a fill buffer replace each other,
/// and neither touches the stroke; stroke settings keep the fill; a blend
/// mode keeps the material; the rectangle, ellipse and image modes are set
/// separately; and no command but the matrix commands moves the current
/// matrix.
pub proof fn lemma_setting_commands<C: Copy, F: Copy, M: Copy, V>(
    a: RenderState<C, F, M, V>,
    cmd: StateCommand<C, F, M, V>,
    b: RenderState<C, F, M, V>,
)
    requires
        RenderState::applied(&a, &cmd, &b),
    ensures
        (!(cmd is PushMatrix || cmd is PopMatrix || cmd is ResetMatrix || cmd is SetMatrix) ==> b.transform@
            == a.transform@),
        (cmd matches StateCommand::Fill(c) ==> b.fill_color == Some(c) && b.fill_buffer is None
            && b.stroke_color == a.stroke_color && b.stroke_weight == a.stroke_weight),
        (cmd matches StateCommand::FillBuffer(e) ==> b.fill_buffer == Some(e) && b.fill_color is None
            && b.stroke_color == a.stroke_color),
        (cmd is NoFill ==> b.fill_color is None && b.fill_buffer is None && b.stroke_color == a.stroke_color),
        (cmd matches StateCommand::StrokeColor(c) ==> b.stroke_color == Some(c) && b.fill_color == a.fill_color
            && b.fill_buffer == a.fill_buffer && b.stroke_weight == a.stroke_weight),
        (cmd is NoStroke ==> b.stroke_color is None && b.fill_color == a.fill_color && b.fill_buffer
            == a.fill_buffer),
        (cmd matches StateCommand::StrokeWeight(w) ==> b.stroke_weight == w && b.stroke_color == a.stroke_color
            && b.fill_color == a.fill_color),
        (cmd matches StateCommand::StrokeCap(m) ==> b.stroke_cap == m && b.stroke_join == a.stroke_join),
        (cmd matches StateCommand::StrokeJoin(m) ==> b.stroke_join == m && b.stroke_cap == a.stroke_cap),
        (cmd matches StateCommand::Tint(c) ==> b.tint_color == Some(c) && b.fill_color == a.fill_color),
        (cmd is NoTint ==> b.tint_color is None && b.fill_color == a.fill_color),
        (cmd matches StateCommand::BlendMode(bs) ==> b.blend_state == bs && b.material_key == a.material_key),
        (cmd matches StateCommand::RectMode(m) ==> b.rect_mode == m && b.ellipse_mode == a.ellipse_mode
            && b.image_mode == a.image_mode),
        (cmd matches StateCommand::EllipseMode(m) ==> b.ellipse_mode == m && b.rect_mode == a.rect_mode
            && b.image_mode == a.image_mode),
        (cmd matches StateCommand::ImageMode(m) ==> b.image_mode == m && b.rect_mode == a.rect_mode
            && b.ellipse_mode == a.ellipse_mode),
        (cmd matches StateCommand::TextAlign(h, v) ==> b.text_align_h == h && b.text_align_v == v),
        (cmd matches StateCommand::TextLeading(l) ==> b.text_leading == Some(l) && b.text_size == a.text_size),
        (cmd matches StateCommand::TextStyle(t) ==> b.text_style == t),
        (cmd matches StateCommand::TextWrap(w) ==> b.text_wrap == w),
        (cmd matches StateCommand::TextDirection(d) ==> b.text_direction == d),
        (cmd matches StateCommand::Unlit(t) ==> b.material_key == MaterialKey::Color {
            transparent: t,
            blend_state: None,
        }),
        (cmd matches StateCommand::Material(e) ==> b.material_key == MaterialKey::Custom {
            entity: e,
            blend_state: None,
        }),
{
}

/// Setting roughness, metallic or emissive turns the material physically
/// based and sets that one value. The other values are kept from a
/// physically based material; from any other material they start at a white
/// albedo, a roughness of `128` (one half), no metallic and no emission.
pub proof fn lemma_pbr_commands<C: Copy, F: Copy, M: Copy, V>(
    a: RenderState<C, F, M, V>,
    cmd: StateCommand<C, F, M, V>,
    b: RenderState<C, F, M, V>,
)
    requires
        RenderState::applied(&a, &cmd, &b),
        cmd is Roughness || cmd is Metallic || cmd is Emissive,
    ensures
        (b.material_key matches MaterialKey::Pbr { albedo, roughness, metallic, emissive, blend_state } && {
            &&& blend_state is None
            &&& (cmd matches StateCommand::Roughness(r) ==> roughness == r)
            &&& (cmd matches StateCommand::Metallic(m) ==> metallic == m)
            &&& (cmd matches StateCommand::Emissive(e) ==> emissive == e)
            &&& a.material_key matches MaterialKey::Pbr { albedo: a0, roughness: r0, metallic: m0, emissive: e0, .. } ==> {
                &&& albedo == a0
                &&& (!(cmd is Roughness) ==> roughness == r0)
                &&& (!(cmd is Metallic) ==> metallic == m0)
                &&& (!(cmd is Emissive) ==> emissive == e0)
            }
            &&& !(a.material_key is Pbr) ==> {
                &&& albedo == [255u8, 255, 255, 255]
                &&& (!(cmd is Roughness) ==> roughness == 128)
                &&& (!(cmd is Metallic) ==> metallic == 0)
                &&& (!(cmd is Emissive) ==> emissive == [0u8, 0, 0, 0])
            }
        }),
        (b.blend_state == a.blend_state),
        (b.fill_color == a.fill_color),
{
}

} // verus!
