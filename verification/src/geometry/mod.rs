//! Retained geometry: topologies, vertex attributes and layouts.
pub mod attribute;
pub mod layout;

use crate::entity::EntityId;
use crate::geometry::attribute::BuiltinAttributes;
use crate::geometry::layout::VertexLayout;
use vstd::prelude::*;

verus! {

/// How a geometry's vertices form primitives.
#[derive(Clone, Copy, Debug, PartialEq, Eq, Structural)]
pub enum Topology {
    PointList,
    LineList,
    LineStrip,
    TriangleList,
    TriangleStrip,
}

/// The topology numbered `value` (`0..=4`, in declaration order).
pub open spec fn topology_of(value: u8) -> Option<Topology> {
    if value == 0 {
        Some(Topology::PointList)
    } else if value == 1 {
        Some(Topology::LineList)
    } else if value == 2 {
        Some(Topology::LineStrip)
    } else if value == 3 {
        Some(Topology::TriangleList)
    } else if value == 4 {
        Some(Topology::TriangleStrip)
    } else {
        None
    }
}

/// The topologies by number: `0` point list, `1` line list, `2` line strip,
/// `3` triangle list, `4` triangle strip; larger numbers name none, and no
/// two numbers name the same topology.
pub proof fn lemma_topology_numbers(v: u8, w: u8)
    ensures
        v == 0 ==> topology_of(v) == Some(Topology::PointList),
        v == 1 ==> topology_of(v) == Some(Topology::LineList),
        v == 2 ==> topology_of(v) == Some(Topology::LineStrip),
        v == 3 ==> topology_of(v) == Some(Topology::TriangleList),
        v == 4 ==> topology_of(v) == Some(Topology::TriangleStrip),
        v > 4 ==> topology_of(v) is None,
        topology_of(v) is Some && v != w ==> topology_of(v) != topology_of(w),
{
}

impl Topology {
    /// The topology numbered `value` (`0..=4`, in declaration order).
    pub fn from_u8(value: u8) -> (r: Option<Self>)
        ensures
            r == topology_of(value),
    {
        match value {
            0 => Some(Topology::PointList),
            1 => Some(Topology::LineList),
            2 => Some(Topology::LineStrip),
            3 => Some(Topology::TriangleList),
            4 => Some(Topology::TriangleStrip),
            _ => None,
        }
    }
}

impl Default for Topology {
    fn default() -> (r: Self)
        ensures
            r == Topology::TriangleList,
    {
        Topology::TriangleList
    }
}

/// What appending one vertex writes besides its position.
#[derive(Debug, Clone)]
pub struct VertexPlan {
    /// The current normal, if the layout has normals.
    pub normal: bool,
    /// The current color, if the layout has colors.
    pub color: bool,
    /// The current texture coordinate, if the layout has them.
    pub uv: bool,
    /// The layout's other attributes, in layout order: each gets its current
    /// value, if one was set.
    pub custom: Vec<EntityId>,
}

/// `a` is one of the attributes every vertex carries by itself.
pub open spec fn is_vertex_builtin(a: EntityId, b: BuiltinAttributes) -> bool {
    a == b.position || a == b.normal || a == b.color || a == b.uv
}

/// The layout's non-built-in attributes among its first `n`, in order.
pub open spec fn custom_upto(attrs: Seq<EntityId>, b: BuiltinAttributes, n: int) -> Seq<EntityId>
    decreases n,
{
    if n <= 0 {
        Seq::empty()
    } else if is_vertex_builtin(attrs[n - 1], b) {
        custom_upto(attrs, b, n - 1)
    } else {
        custom_upto(attrs, b, n - 1).push(attrs[n - 1])
    }
}

/// The custom attributes a vertex writes are the layout's attributes other
/// than position, normal, color and texture coordinates, in layout order:
/// every one of them is in the layout and is not built in, each attribute of
/// the layout that is not built in is among them, and they come in the order
/// the layout lists them (they are the layout with the built-ins dropped).
pub proof fn lemma_custom_attributes(attrs: Seq<EntityId>, b: BuiltinAttributes)
    ensures
        custom_upto(attrs, b, attrs.len() as int) == attrs.filter(|a: EntityId| !is_vertex_builtin(a, b)),
        forall|i: int| 0 <= i < custom_upto(attrs, b, attrs.len() as int).len() ==> {
            &&& attrs.contains(#[trigger] custom_upto(attrs, b, attrs.len() as int)[i])
            &&& !is_vertex_builtin(custom_upto(attrs, b, attrs.len() as int)[i], b)
        },
        forall|a: EntityId| #[trigger] attrs.contains(a) && !is_vertex_builtin(a, b) ==> custom_upto(
            attrs,
            b,
            attrs.len() as int,
        ).contains(a),
{
    lemma_custom_is_filter(attrs, b, attrs.len() as int);
    assert(attrs.subrange(0, attrs.len() as int) =~= attrs);
    let f = |a: EntityId| !is_vertex_builtin(a, b);
    let c = attrs.filter(f);
    assert forall|i: int| 0 <= i < c.len() implies attrs.contains(#[trigger] c[i]) && !is_vertex_builtin(c[i], b) by {
        assert(c.contains(c[i]));
        attrs.lemma_filter_contains_rev(f, c[i]);
        assert(f(c[i])) by {
            attrs.filter_lemma(f);
        }
    }
    assert forall|a: EntityId| #[trigger] attrs.contains(a) && !is_vertex_builtin(a, b) implies c.contains(a) by {
        let i = choose|i: int| 0 <= i < attrs.len() && attrs[i] == a;
        attrs.lemma_filter_contains(f, i);
    }
}

proof fn lemma_custom_is_filter(attrs: Seq<EntityId>, b: BuiltinAttributes, n: int)
    requires
        0 <= n <= attrs.len(),
    ensures
        custom_upto(attrs, b, n) == attrs.subrange(0, n).filter(|a: EntityId| !is_vertex_builtin(a, b)),
    decreases n,
{
    let f = |a: EntityId| !is_vertex_builtin(a, b);
    if n == 0 {
        assert(attrs.subrange(0, 0) =~= Seq::<EntityId>::empty());
        assert(Seq::<EntityId>::empty().filter(f) =~= Seq::<EntityId>::empty());
    } else {
        lemma_custom_is_filter(attrs, b, n - 1);
        let s = attrs.subrange(0, n);
        assert(s.drop_last() =~= attrs.subrange(0, n - 1));
        assert(s.last() == attrs[n - 1]);
        attrs.subrange(0, n - 1).lemma_filter_push(attrs[n - 1], f);
        assert(attrs.subrange(0, n - 1).push(attrs[n - 1]) =~= s);
    }
}

/// What a vertex appended to a geometry of `layout` writes.
pub fn vertex_plan(layout: &VertexLayout, builtins: &BuiltinAttributes) -> (r: VertexPlan)
    ensures
        r.normal == layout@.contains(builtins.normal),
        r.color == layout@.contains(builtins.color),
        r.uv == layout@.contains(builtins.uv),
        r.custom@ == custom_upto(layout@, *builtins, layout@.len() as int),
{
    let normal = layout.has_attribute(builtins.normal);
    let color = layout.has_attribute(builtins.color);
    let uv = layout.has_attribute(builtins.uv);
    let attrs = layout.attributes();
    let mut custom: Vec<EntityId> = Vec::new();
    let mut i: usize = 0;
    while i < attrs.len()
        invariant
            i <= attrs@.len(),
            attrs@ == layout@,
            custom@ == custom_upto(layout@, *builtins, i as int),
        decreases attrs@.len() - i,
    {
        let a = attrs[i];
        if !(a == builtins.position || a == builtins.normal || a == builtins.color || a == builtins.uv) {
            custom.push(a);
        }
        i = i + 1;
    }
    VertexPlan { normal, color, uv, custom }
}

} // verus!
