//! `beginShape` / `endShape`: collecting vertices into contours, and the
//! index-level plan of what the collected vertices are drawn as.
//!
//! Vertex coordinates are floating point and stay with the caller; the
//! builder is generic over the vertex, and the plans speak of vertices by
//! their kind and their index in the contour.
use crate::render::command::ShapeKind;
use vstd::prelude::*;

verus! {

/// The kind of a shape vertex.
#[derive(Debug, Clone, Copy, PartialEq, Eq, Structural)]
pub enum VertexKind {
    /// A plain vertex.
    Normal,
    /// The end of a cubic Bézier segment with its two control points.
    CubicBezier,
    /// The end of a quadratic Bézier segment with its control point.
    QuadraticBezier,
    /// A Catmull-Rom curve point.
    Curve,
}

/// The vertices of one contour, in the order they were given.
#[derive(Debug, Clone)]
pub struct Contour<V> {
    pub vertices: Vec<V>,
}

/// A shape under construction: the outer contour first, then one contour
/// per `beginContour`.
#[derive(Debug, Clone)]
pub struct ShapeBuilder<V> {
    pub kind: ShapeKind,
    pub contours: Vec<Contour<V>>,
    pub in_contour: bool,
}

impl<V> ShapeBuilder<V> {
    /// The contours' vertices.
    pub open spec fn contour_seqs(&self) -> Seq<Seq<V>> {
        Seq::new(self.contours@.len(), |i: int| self.contours@[i].vertices@)
    }

    /// The builder has its outer contour.
    pub open spec fn wf(&self) -> bool {
        self.contours@.len() >= 1
    }

    /// The contour that the next vertex goes to: the newest one inside
    /// `beginContour` / `endContour`, else the outer one.
    pub open spec fn target(&self) -> int {
        if self.in_contour {
            self.contours@.len() - 1
        } else {
            0
        }
    }

    /// A builder of `kind` with an empty outer contour.
    pub fn new(kind: ShapeKind) -> (r: Self)
        ensures
            r.wf(),
            r.kind == kind,
            !r.in_contour,
            r.contour_seqs() == seq![Seq::<V>::empty()],
    {
        let mut contours: Vec<Contour<V>> = Vec::new();
        contours.push(Contour { vertices: Vec::new() });
        let r = ShapeBuilder { kind, contours, in_contour: false };
        assert(r.contour_seqs() =~= seq![Seq::<V>::empty()]);
        r
    }

    /// Appends `vt` to the target contour.
    pub fn push_vertex(&mut self, vt: V)
        requires
            old(self).wf(),
        ensures
            final(self).wf(),
            final(self).kind == old(self).kind,
            final(self).in_contour == old(self).in_contour,
            final(self).contour_seqs() == old(self).contour_seqs().update(
                old(self).target(),
                old(self).contour_seqs()[old(self).target()].push(vt),
            ),
    {
        let t: usize = if self.in_contour {
            self.contours.len() - 1
        } else {
            0
        };
        let mut taken: Contour<V> = Contour { vertices: Vec::new() };
        let old_len = self.contours.len();
        std::mem::swap(&mut taken, &mut self.contours[t]);
        let ghost taken_before = taken.vertices@;
        taken.vertices.push(vt);
        self.contours.set(t, taken);
        proof {
            assert(self.contours@.len() == old_len);
            assert(taken_before == old(self).contour_seqs()[t as int]);
            assert(self.contour_seqs() =~= old(self).contour_seqs().update(
                t as int,
                old(self).contour_seqs()[t as int].push(vt),
            ));
        }
    }

    /// Starts a new contour; vertices go to it until `end_contour`.
    pub fn begin_contour(&mut self)
        requires
            old(self).wf(),
        ensures
            final(self).wf(),
            final(self).kind == old(self).kind,
            final(self).in_contour,
            final(self).contour_seqs() == old(self).contour_seqs().push(Seq::<V>::empty()),
    {
        self.in_contour = true;
        self.contours.push(Contour { vertices: Vec::new() });
        assert(self.contour_seqs() =~= old(self).contour_seqs().push(Seq::<V>::empty()));
    }

    /// Ends the current contour; vertices go to the outer contour again.
    pub fn end_contour(&mut self)
        requires
            old(self).wf(),
        ensures
            final(self).wf(),
            final(self).kind == old(self).kind,
            !final(self).in_contour,
            final(self).contour_seqs() == old(self).contour_seqs(),
    {
        self.in_contour = false;
        assert(self.contour_seqs() =~= old(self).contour_seqs());
    }
}

/// A primitive of a fixed-topology shape, by vertex index.
#[derive(Debug, Clone, Copy, PartialEq, Eq, Structural)]
pub enum Face {
    /// An open two-point stroke.
    Segment(usize, usize),
    /// A triangle, filled or stroked as a closed outline.
    Triangle(usize, usize, usize),
    /// A quad, filled or stroked as a closed outline.
    Quad(usize, usize, usize, usize),
}

/// The `t`-th triangle of a triangle strip over `0..n`: every other one has
/// its first two vertices swapped so that all keep one winding.
pub open spec fn strip_triangle(i: int) -> Face {
    if i % 2 == 0 {
        Face::Triangle(i as usize, (i + 1) as usize, (i + 2) as usize)
    } else {
        Face::Triangle((i + 1) as usize, i as usize, (i + 2) as usize)
    }
}

/// How many quads a quad strip of `n` vertices makes.
pub open spec fn quad_strip_count(n: int) -> int {
    if n >= 4 {
        (n - 2) / 2
    } else {
        0
    }
}

/// The filled primitives of a fixed-topology shape over vertices `0..n`.
/// Other kinds have none; trailing vertices that do not complete a primitive
/// are dropped.
pub open spec fn direct_fill_faces(kind: ShapeKind, n: int) -> Seq<Face> {
    match kind {
        ShapeKind::Triangles => Seq::new(
            (n / 3) as nat,
            |t: int| Face::Triangle((3 * t) as usize, (3 * t + 1) as usize, (3 * t + 2) as usize),
        ),
        ShapeKind::TriangleFan => if n >= 3 {
            Seq::new((n - 2) as nat, |i: int| Face::Triangle(0, (i + 1) as usize, (i + 2) as usize))
        } else {
            Seq::empty()
        },
        ShapeKind::TriangleStrip => if n >= 2 {
            Seq::new((n - 2) as nat, |i: int| strip_triangle(i))
        } else {
            Seq::empty()
        },
        ShapeKind::Quads => Seq::new(
            (n / 4) as nat,
            |t: int|
                Face::Quad(
                    (4 * t) as usize,
                    (4 * t + 1) as usize,
                    (4 * t + 2) as usize,
                    (4 * t + 3) as usize,
                ),
        ),
        ShapeKind::QuadStrip => Seq::new(
            quad_strip_count(n) as nat,
            |t: int|
                Face::Quad(
                    (2 * t) as usize,
                    (2 * t + 1) as usize,
                    (2 * t + 3) as usize,
                    (2 * t + 2) as usize,
                ),
        ),
        _ => Seq::empty(),
    }
}

/// The stroked primitives of a fixed-topology shape over vertices `0..n`:
/// `Lines` strokes consecutive pairs, the other kinds outline their filled
/// primitives.
pub open spec fn direct_stroke_faces(kind: ShapeKind, n: int) -> Seq<Face> {
    if kind == ShapeKind::Lines {
        Seq::new((n / 2) as nat, |t: int| Face::Segment((2 * t) as usize, (2 * t + 1) as usize))
    } else {
        direct_fill_faces(kind, n)
    }
}

/// The vertex indices a face names.
pub open spec fn face_in_range(f: Face, n: int) -> bool {
    match f {
        Face::Segment(a, b) => a < n && b < n,
        Face::Triangle(a, b, c) => a < n && b < n && c < n,
        Face::Quad(a, b, c, d) => a < n && b < n && c < n && d < n,
    }
}

/// What the fixed-topology kinds draw from `n` vertices. Every kind but
/// `LINES` strokes exactly the outlines of what it fills; `LINES` fills
/// nothing and strokes each pair. `TRIANGLES` takes each run of three,
/// `TRIANGLE_FAN` the hub with each following pair (`n - 2` triangles from
/// three vertices on), `TRIANGLE_STRIP` each three consecutive vertices with
/// every other one's first two swapped, `QUADS` each run of four, and
/// `QUAD_STRIP` each next pair with the one before it, going round the quad.
/// Polygons and points are not drawn this way. No face names a vertex past
/// the last one.
pub proof fn lemma_fixed_topology_faces(kind: ShapeKind, n: int)
    requires
        n >= 0,
    ensures
        kind != ShapeKind::Lines ==> direct_stroke_faces(kind, n) == direct_fill_faces(kind, n),
        forall|i: int| 0 <= i < direct_fill_faces(kind, n).len() ==> face_in_range(
            #[trigger] direct_fill_faces(kind, n)[i],
            n,
        ),
        forall|i: int| 0 <= i < direct_stroke_faces(kind, n).len() ==> face_in_range(
            #[trigger] direct_stroke_faces(kind, n)[i],
            n,
        ),
        kind == ShapeKind::Polygon || kind == ShapeKind::Points ==> direct_fill_faces(kind, n).len() == 0
            && direct_stroke_faces(kind, n).len() == 0,
        kind == ShapeKind::Lines ==> {
            &&& direct_fill_faces(kind, n).len() == 0
            &&& direct_stroke_faces(kind, n).len() == n / 2
            &&& forall|t: int| 0 <= t < n / 2 ==> #[trigger] direct_stroke_faces(kind, n)[t] == Face::Segment(
                (2 * t) as usize,
                (2 * t + 1) as usize,
            )
        },
        kind == ShapeKind::Triangles ==> {
            &&& direct_fill_faces(kind, n).len() == n / 3
            &&& forall|t: int| 0 <= t < n / 3 ==> #[trigger] direct_fill_faces(kind, n)[t] == Face::Triangle(
                (3 * t) as usize,
                (3 * t + 1) as usize,
                (3 * t + 2) as usize,
            )
        },
        kind == ShapeKind::TriangleFan ==> {
            &&& direct_stroke_faces(kind, n).len() == (if n >= 3 { n - 2 } else { 0 })
            &&& forall|i: int| 0 <= i < n - 2 ==> #[trigger] direct_stroke_faces(kind, n)[i] == Face::Triangle(
                0,
                (i + 1) as usize,
                (i + 2) as usize,
            )
        },
        kind == ShapeKind::TriangleStrip ==> {
            &&& direct_fill_faces(kind, n).len() == (if n >= 3 { n - 2 } else { 0 })
            &&& forall|i: int| 0 <= i < n - 2 && i % 2 == 0 ==> #[trigger] direct_fill_faces(kind, n)[i]
                == Face::Triangle(i as usize, (i + 1) as usize, (i + 2) as usize)
            &&& forall|i: int| 0 <= i < n - 2 && i % 2 == 1 ==> #[trigger] direct_fill_faces(kind, n)[i]
                == Face::Triangle((i + 1) as usize, i as usize, (i + 2) as usize)
        },
        kind == ShapeKind::Quads ==> {
            &&& direct_fill_faces(kind, n).len() == n / 4
            &&& forall|t: int| 0 <= t < n / 4 ==> #[trigger] direct_fill_faces(kind, n)[t] == Face::Quad(
                (4 * t) as usize,
                (4 * t + 1) as usize,
                (4 * t + 2) as usize,
                (4 * t + 3) as usize,
            )
        },
        kind == ShapeKind::QuadStrip ==> {
            &&& direct_fill_faces(kind, n).len() == (if n >= 4 { (n - 2) / 2 } else { 0 })
            &&& forall|t: int| 0 <= t < direct_fill_faces(kind, n).len() ==> #[trigger] direct_fill_faces(
                kind,
                n,
            )[t] == Face::Quad(
                (2 * t) as usize,
                (2 * t + 1) as usize,
                (2 * t + 3) as usize,
                (2 * t + 2) as usize,
            )
        },
{
    let fill = direct_fill_faces(kind, n);
    assert forall|i: int| 0 <= i < fill.len() implies face_in_range(#[trigger] fill[i], n) by {
        match kind {
            ShapeKind::Triangles => {
                assert(3 * i + 2 < n) by (nonlinear_arith)
                    requires 0 <= i < n / 3, n >= 0;
            },
            ShapeKind::Quads => {
                assert(4 * i + 3 < n) by (nonlinear_arith)
                    requires 0 <= i < n / 4, n >= 0;
            },
            ShapeKind::QuadStrip => {
                assert(2 * i + 3 < n) by (nonlinear_arith)
                    requires 0 <= i < (n - 2) / 2, n >= 4;
            },
            ShapeKind::TriangleStrip => {
                if i % 2 == 0 {
                    assert(fill[i] == Face::Triangle(i as usize, (i + 1) as usize, (i + 2) as usize));
                } else {
                    assert(fill[i] == Face::Triangle((i + 1) as usize, i as usize, (i + 2) as usize));
                }
            },
            _ => {},
        }
    }
    if kind == ShapeKind::Lines {
        let stroke = direct_stroke_faces(kind, n);
        assert forall|i: int| 0 <= i < stroke.len() implies face_in_range(#[trigger] stroke[i], n) by {
            assert(2 * i + 1 < n) by (nonlinear_arith)
                requires 0 <= i < n / 2, n >= 0;
        }
    }
}

/// The filled primitives of a fixed-topology shape over `n` vertices.
pub fn direct_fill(kind: ShapeKind, n: usize) -> (r: Vec<Face>)
    ensures
        r@ == direct_fill_faces(kind, n as int),
{
    let mut r: Vec<Face> = Vec::new();
    match kind {
        ShapeKind::Triangles => {
            let count = n / 3;
            let mut t: usize = 0;
            while t < count
                invariant
                    count == n / 3,
                    t <= count,
                    r@.len() == t,
                    forall|j: int| 0 <= j < t ==> r@[j] == direct_fill_faces(kind, n as int)[j],
                    kind == ShapeKind::Triangles,
                decreases count - t,
            {
                r.push(Face::Triangle(3 * t, 3 * t + 1, 3 * t + 2));
                t = t + 1;
            }
        },
        ShapeKind::TriangleFan => {
            if n >= 3 {
                let mut i: usize = 0;
                while i < n - 2
                    invariant
                        n >= 3,
                        i <= n - 2,
                        r@.len() == i,
                        forall|j: int| 0 <= j < i ==> r@[j] == direct_fill_faces(kind, n as int)[j],
                        kind == ShapeKind::TriangleFan,
                    decreases n - 2 - i,
                {
                    r.push(Face::Triangle(0, i + 1, i + 2));
                    i = i + 1;
                }
            }
        },
        ShapeKind::TriangleStrip => {
            if n >= 2 {
                let mut i: usize = 0;
                while i < n - 2
                    invariant
                        n >= 2,
                        i <= n - 2,
                        r@.len() == i,
                        forall|j: int| 0 <= j < i ==> r@[j] == direct_fill_faces(kind, n as int)[j],
                        kind == ShapeKind::TriangleStrip,
                    decreases n - 2 - i,
                {
                    if i % 2 == 0 {
                        r.push(Face::Triangle(i, i + 1, i + 2));
                    } else {
                        r.push(Face::Triangle(i + 1, i, i + 2));
                    }
                    i = i + 1;
                }
            }
        },
        ShapeKind::Quads => {
            let count = n / 4;
            let mut t: usize = 0;
            while t < count
                invariant
                    count == n / 4,
                    t <= count,
                    r@.len() == t,
                    forall|j: int| 0 <= j < t ==> r@[j] == direct_fill_faces(kind, n as int)[j],
                    kind == ShapeKind::Quads,
                decreases count - t,
            {
                r.push(Face::Quad(4 * t, 4 * t + 1, 4 * t + 2, 4 * t + 3));
                t = t + 1;
            }
        },
        ShapeKind::QuadStrip => {
            let mut i: usize = 0;
            while n >= 4 && i <= n - 4
                invariant
                    i % 2 == 0,
                    n >= 4 ==> i <= n - 2,
                    n < 4 ==> i == 0,
                    r@.len() == i / 2,
                    forall|j: int| 0 <= j < i / 2 ==> r@[j] == direct_fill_faces(kind, n as int)[j],
                    kind == ShapeKind::QuadStrip,
                decreases n - i,
            {
                r.push(Face::Quad(i, i + 1, i + 3, i + 2));
                i = i + 2;
            }
        },
        _ => {},
    }
    assert(r@ =~= direct_fill_faces(kind, n as int));
    r
}

/// The stroked primitives of a fixed-topology shape over `n` vertices.
pub fn direct_stroke(kind: ShapeKind, n: usize) -> (r: Vec<Face>)
    ensures
        r@ == direct_stroke_faces(kind, n as int),
{
    if kind == ShapeKind::Lines {
        let count = n / 2;
        let mut r: Vec<Face> = Vec::new();
        let mut t: usize = 0;
        while t < count
            invariant
                count == n / 2,
                t <= count,
                r@.len() == t,
                forall|j: int| 0 <= j < t ==> r@[j] == direct_stroke_faces(kind, n as int)[j],
                kind == ShapeKind::Lines,
            decreases count - t,
        {
            r.push(Face::Segment(2 * t, 2 * t + 1));
            t = t + 1;
        }
        assert(r@ =~= direct_stroke_faces(kind, n as int));
        r
    } else {
        direct_fill(kind, n)
    }
}

/// The indices of the plain vertices among the first `n` of `kinds`, in
/// order.
pub open spec fn normals_upto(kinds: Seq<VertexKind>, n: int) -> Seq<usize>
    decreases n,
{
    if n <= 0 {
        Seq::empty()
    } else if kinds[n - 1] == VertexKind::Normal {
        normals_upto(kinds, n - 1).push((n - 1) as usize)
    } else {
        normals_upto(kinds, n - 1)
    }
}

/// The indices of the plain vertices of `kinds`, in order: the vertices that
/// points and fixed-topology shapes use.
pub open spec fn normals_of(kinds: Seq<VertexKind>) -> Seq<usize> {
    normals_upto(kinds, kinds.len() as int)
}

/// The stroked primitives over `0..n` if `stroke`, else the filled ones.
pub open spec fn direct_faces_over(kind: ShapeKind, n: int, stroke: bool) -> Seq<Face> {
    if stroke {
        direct_stroke_faces(kind, n)
    } else {
        direct_fill_faces(kind, n)
    }
}

/// `f` with each index `i` replaced by `map[i]`.
pub open spec fn remap(f: Face, map: Seq<usize>) -> Face {
    match f {
        Face::Segment(a, b) => Face::Segment(map[a as int], map[b as int]),
        Face::Triangle(a, b, c) => Face::Triangle(map[a as int], map[b as int], map[c as int]),
        Face::Quad(a, b, c, d) => Face::Quad(map[a as int], map[b as int], map[c as int], map[d as int]),
    }
}

/// The indices below `n` that `f` uses.
pub open spec fn face_within(f: Face, n: int) -> bool {
    match f {
        Face::Segment(a, b) => a < n && b < n,
        Face::Triangle(a, b, c) => a < n && b < n && c < n,
        Face::Quad(a, b, c, d) => a < n && b < n && c < n && d < n,
    }
}

/// The primitives of a fixed-topology shape, by index into its outer
/// contour: those of `direct_*_faces` over the plain vertices alone.
pub open spec fn direct_faces_of(kind: ShapeKind, kinds: Seq<VertexKind>, stroke: bool) -> Seq<Face> {
    let normals = normals_of(kinds);
    let faces = direct_faces_over(kind, normals.len() as int, stroke);
    Seq::new(faces.len(), |j: int| remap(faces[j], normals))
}

proof fn lemma_normals_upto_facts(kinds: Seq<VertexKind>, n: int)
    requires
        0 <= n <= kinds.len(),
    ensures
        normals_upto(kinds, n).len() <= n,
        forall|j: int|
            0 <= j < normals_upto(kinds, n).len() ==> #[trigger] normals_upto(kinds, n)[j] < n,
    decreases n,
{
    if n > 0 {
        lemma_normals_upto_facts(kinds, n - 1);
    }
}

/// The indices of the plain vertices of `kinds`, in order.
pub fn normal_vertices(kinds: &Vec<VertexKind>) -> (r: Vec<usize>)
    ensures
        r@ == normals_of(kinds@),
        r@.len() <= kinds@.len(),
        forall|j: int| 0 <= j < r@.len() ==> #[trigger] r@[j] < kinds@.len(),
{
    let mut r: Vec<usize> = Vec::new();
    let mut i: usize = 0;
    while i < kinds.len()
        invariant
            i <= kinds@.len(),
            r@ == normals_upto(kinds@, i as int),
        decreases kinds@.len() - i,
    {
        if kinds[i] == VertexKind::Normal {
            r.push(i);
        }
        i = i + 1;
    }
    proof {
        lemma_normals_upto_facts(kinds@, kinds@.len() as int);
    }
    r
}

proof fn lemma_faces_within(kind: ShapeKind, n: int, stroke: bool)
    requires
        n >= 0,
    ensures
        forall|j: int|
            0 <= j < direct_faces_over(kind, n, stroke).len()
                ==> face_within(
                #[trigger] direct_faces_over(kind, n, stroke)[j],
                n,
            ),
{
    assert forall|j: int|
        0 <= j < direct_faces_over(kind, n, stroke).len()
        implies face_within(
        #[trigger] direct_faces_over(kind, n, stroke)[j],
        n,
    ) by {
        if kind == ShapeKind::QuadStrip {
            assert(2 * j + 3 < n) by (nonlinear_arith)
                requires
                    n >= 4,
                    0 <= j < (n - 2) / 2,
            ;
        }
    }
}

/// The primitives of a fixed-topology shape whose outer contour holds
/// vertices of `kinds`, by index into that contour; `stroke` picks the
/// stroked primitives over the filled ones.
pub fn direct_faces(kind: ShapeKind, kinds: &Vec<VertexKind>, stroke: bool) -> (r: Vec<Face>)
    ensures
        r@ == direct_faces_of(kind, kinds@, stroke),
{
    let normals = normal_vertices(kinds);
    let faces = if stroke {
        direct_stroke(kind, normals.len())
    } else {
        direct_fill(kind, normals.len())
    };
    proof {
        lemma_faces_within(kind, normals@.len() as int, stroke);
    }
    let mut r: Vec<Face> = Vec::new();
    let mut j: usize = 0;
    while j < faces.len()
        invariant
            j <= faces@.len(),
            r@.len() == j,
            faces@ == direct_faces_over(kind, normals@.len() as int, stroke),
            forall|k: int| 0 <= k < faces@.len() ==> face_within(#[trigger] faces@[k], normals@.len() as int),
            forall|k: int| 0 <= k < j ==> r@[k] == remap(faces@[k], normals@),
        decreases faces@.len() - j,
    {
        let f = match faces[j] {
            Face::Segment(a, b) => Face::Segment(normals[a], normals[b]),
            Face::Triangle(a, b, c) => Face::Triangle(normals[a], normals[b], normals[c]),
            Face::Quad(a, b, c, d) => Face::Quad(normals[a], normals[b], normals[c], normals[d]),
        };
        r.push(f);
        j = j + 1;
    }
    assert(r@ =~= direct_faces_of(kind, kinds@, stroke));
    r
}

/// The mesh indices of a triangle whose three vertices are appended at
/// `base`.
pub fn triangle_indices(base: u32) -> (r: [u32; 3])
    requires
        base + 2 <= u32::MAX,
    ensures
        r@ == seq![base, (base + 1) as u32, (base + 2) as u32],
{
    let r = [base, base + 1, base + 2];
    assert(r@ =~= seq![base, (base + 1) as u32, (base + 2) as u32]);
    r
}

/// The mesh indices of a quad whose four vertices are appended at `base`:
/// two triangles sharing the diagonal from the first vertex to the third.
pub fn quad_indices(base: u32) -> (r: [u32; 6])
    requires
        base + 3 <= u32::MAX,
    ensures
        r@ == seq![base, (base + 1) as u32, (base + 2) as u32, base, (base + 2) as u32, (base + 3) as u32],
{
    let r = [base, base + 1, base + 2, base, base + 2, base + 3];
    assert(r@ =~= seq![base, (base + 1) as u32, (base + 2) as u32, base, (base + 2) as u32, (base + 3) as u32]);
    r
}

/// One vertex of a contour after its curve points are expanded.
#[derive(Debug, Clone, Copy, PartialEq, Eq, Structural)]
pub enum Expanded {
    /// Vertex `j`, which is not a curve point, unchanged.
    Keep(usize),
    /// A plain vertex at curve point `j`.
    Point(usize),
    /// The cubic Bézier equivalent of the Catmull-Rom span through curve
    /// points `j..=j + 3`, drawn from point `j + 1` to point `j + 2`.
    Segment(usize),
}

/// The expansion of the run of curve points `end - k .. end`: a run of `n`
/// points draws from its second point to its next-to-last, one span per
/// window of four; a run of three draws its middle point alone, shorter
/// runs draw nothing.
pub open spec fn flushed_run(end: int, k: int) -> Seq<Expanded> {
    let start = end - k;
    if k >= 4 {
        seq![Expanded::Point((start + 1) as usize)] + Seq::new(
            (k - 3) as nat,
            |i: int| Expanded::Segment((start + i) as usize),
        )
    } else if k == 3 {
        seq![Expanded::Point((start + 1) as usize)]
    } else {
        Seq::empty()
    }
}

/// The expansion of `kinds[i..]`, with the `run` vertices before `i` being
/// a run of curve points not yet expanded.
pub open spec fn expand_from(kinds: Seq<VertexKind>, i: int, run: int) -> Seq<Expanded>
    decreases kinds.len() - i,
{
    if i >= kinds.len() {
        flushed_run(i, run)
    } else if kinds[i] == VertexKind::Curve {
        expand_from(kinds, i + 1, run + 1)
    } else {
        flushed_run(i, run) + seq![Expanded::Keep(i as usize)] + expand_from(kinds, i + 1, 0)
    }
}

/// A contour's vertices with every run of curve points replaced by its
/// expansion.
pub open spec fn expanded(kinds: Seq<VertexKind>) -> Seq<Expanded> {
    expand_from(kinds, 0, 0)
}

fn flush_run(result: &mut Vec<Expanded>, end: usize, k: usize)
    requires
        k <= end,
    ensures
        final(result)@ == old(result)@ + flushed_run(end as int, k as int),
{
    let start = end - k;
    if k >= 3 {
        result.push(Expanded::Point(start + 1));
    }
    if k >= 4 {
        let ghost base = result@;
        let mut i: usize = 0;
        while i < k - 3
            invariant
                k >= 4,
                start == end - k,
                k <= end,
                i <= k - 3,
                result@.len() == base.len() + i,
                forall|j: int| 0 <= j < base.len() ==> result@[j] == base[j],
                forall|j: int|
                    0 <= j < i ==> #[trigger] result@[base.len() + j] == Expanded::Segment((start + j) as usize),
            decreases k - 3 - i,
        {
            result.push(Expanded::Segment(start + i));
            i = i + 1;
        }
        let ghost tail = Seq::new((k - 3) as nat, |j: int| Expanded::Segment((start + j) as usize));
        assert forall|x: int| 0 <= x < result@.len() implies result@[x] == (base + tail)[x] by {
            if x >= base.len() {
                assert(result@[base.len() + (x - base.len())] == Expanded::Segment(
                    (start + (x - base.len())) as usize,
                ));
            }
        }
        assert(result@ =~= base + tail);
        assert(base =~= old(result)@ + seq![Expanded::Point((start + 1) as usize)]);
        assert(flushed_run(end as int, k as int) =~= seq![Expanded::Point((start + 1) as usize)] + tail);
    }
    assert(result@ =~= old(result)@ + flushed_run(end as int, k as int));
}

/// A run of `k >= 4` curve points is drawn from its second point through
/// `k - 3` Catmull-Rom spans, one per window of four consecutive points.
pub proof fn lemma_curve_run_spans(end: int, k: int)
    requires
        k >= 4,
    ensures
        flushed_run(end, k).len() == k - 2,
        flushed_run(end, k)[0] == Expanded::Point((end - k + 1) as usize),
        forall|i: int|
            1 <= i < k - 2 ==> #[trigger] flushed_run(end, k)[i] == Expanded::Segment((end - k + i - 1) as usize),
{
}

/// Expands the curve points of a contour whose vertices have `kinds`.
pub fn expand_curve_vertices(kinds: &Vec<VertexKind>) -> (r: Vec<Expanded>)
    ensures
        r@ == expanded(kinds@),
{
    let mut result: Vec<Expanded> = Vec::new();
    let mut run: usize = 0;
    let mut i: usize = 0;
    while i < kinds.len()
        invariant
            run <= i <= kinds@.len(),
            result@ + expand_from(kinds@, i as int, run as int) == expanded(kinds@),
        decreases kinds@.len() - i,
    {
        if kinds[i] == VertexKind::Curve {
            run = run + 1;
        } else {
            let ghost before = result@;
            flush_run(&mut result, i, run);
            result.push(Expanded::Keep(i));
            proof {
                assert(before + (flushed_run(i as int, run as int) + seq![Expanded::Keep(i)]
                    + expand_from(kinds@, i + 1, 0)) =~= result@ + expand_from(kinds@, i + 1, 0));
            }
            run = 0;
        }
        i = i + 1;
    }
    flush_run(&mut result, i, run);
    proof {
        assert(expand_from(kinds@, i as int, run as int) == flushed_run(i as int, run as int));
    }
    result
}

/// One step of building a contour's path.
#[derive(Debug, Clone, Copy, PartialEq, Eq, Structural)]
pub enum PathCommand {
    /// Starts a sub-path of contour `c` at the point of the expanded vertex.
    Begin(usize, Expanded),
    /// A straight line in contour `c` to the point of the expanded vertex.
    LineTo(usize, Expanded),
    /// A Bézier segment in contour `c`: the vertex's own (`Keep`) or a
    /// Catmull-Rom span's (`Segment`).
    CurveTo(usize, Expanded),
    /// Ends the sub-path, closing it if the flag is set.
    End(bool),
}

/// What an expanded vertex contributes to a path.
#[derive(Debug, Clone, Copy, PartialEq, Eq, Structural)]
pub enum StepRole {
    /// A point: starts the sub-path, or draws a line to it.
    Point,
    /// A curve segment, drawn only once the sub-path has started.
    Curve,
    /// Nothing.
    Skip,
}

/// The role of `e` in a contour whose vertices have `kinds`.
pub open spec fn role_of(e: Expanded, kinds: Seq<VertexKind>) -> StepRole {
    match e {
        Expanded::Keep(j) => if j < kinds.len() {
            match kinds[j as int] {
                VertexKind::Normal => StepRole::Point,
                VertexKind::CubicBezier => StepRole::Curve,
                VertexKind::QuadraticBezier => StepRole::Curve,
                VertexKind::Curve => StepRole::Skip,
            }
        } else {
            StepRole::Skip
        },
        Expanded::Point(_) => StepRole::Point,
        Expanded::Segment(_) => StepRole::Curve,
    }
}

/// The path steps of contour `c` for `exp[i..]`, the sub-path having
/// `started` or not; a started sub-path ends, closed if `closed`.
pub open spec fn steps_from(
    c: usize,
    exp: Seq<Expanded>,
    kinds: Seq<VertexKind>,
    i: int,
    started: bool,
    closed: bool,
) -> Seq<PathCommand>
    decreases exp.len() - i,
{
    if i >= exp.len() {
        if started {
            seq![PathCommand::End(closed)]
        } else {
            Seq::empty()
        }
    } else {
        match role_of(exp[i], kinds) {
            StepRole::Point => seq![
                if started {
                    PathCommand::LineTo(c, exp[i])
                } else {
                    PathCommand::Begin(c, exp[i])
                },
            ] + steps_from(c, exp, kinds, i + 1, true, closed),
            StepRole::Curve => if started {
                seq![PathCommand::CurveTo(c, exp[i])] + steps_from(c, exp, kinds, i + 1, true, closed)
            } else {
                steps_from(c, exp, kinds, i + 1, false, closed)
            },
            StepRole::Skip => steps_from(c, exp, kinds, i + 1, started, closed),
        }
    }
}

/// The path steps of contour `c`, whose vertices have `kinds`.
pub open spec fn contour_path(c: usize, kinds: Seq<VertexKind>, closed: bool) -> Seq<PathCommand> {
    steps_from(c, expanded(kinds), kinds, 0, false, closed)
}

/// The path steps of the first `n` contours: the outer contour closes if
/// `close` is set, the others (holes) always close.
pub open spec fn path_upto(cs: Seq<Seq<VertexKind>>, n: int, close: bool) -> Seq<PathCommand>
    decreases n,
{
    if n <= 0 {
        Seq::empty()
    } else {
        path_upto(cs, n - 1, close) + contour_path((n - 1) as usize, cs[n - 1], close || n - 1 > 0)
    }
}

proof fn lemma_steps_end_flag(
    c: usize,
    exp: Seq<Expanded>,
    kinds: Seq<VertexKind>,
    i: int,
    started: bool,
    closed: bool,
)
    ensures
        forall|j: int|
            0 <= j < steps_from(c, exp, kinds, i, started, closed).len() ==> (#[trigger] steps_from(
                c,
                exp,
                kinds,
                i,
                started,
                closed,
            )[j] matches PathCommand::End(b) ==> b == closed),
    decreases exp.len() - i,
{
    if i < exp.len() {
        lemma_steps_end_flag(c, exp, kinds, i + 1, true, closed);
        lemma_steps_end_flag(c, exp, kinds, i + 1, false, closed);
        lemma_steps_end_flag(c, exp, kinds, i + 1, started, closed);
        let s = steps_from(c, exp, kinds, i, started, closed);
        assert forall|j: int| 0 <= j < s.len() implies (#[trigger] s[j] matches PathCommand::End(b) ==> b
            == closed) by {
            match role_of(exp[i], kinds) {
                StepRole::Point => {
                    if j > 0 {
                        assert(s[j] == steps_from(c, exp, kinds, i + 1, true, closed)[j - 1]);
                    }
                },
                StepRole::Curve => {
                    if started && j > 0 {
                        assert(s[j] == steps_from(c, exp, kinds, i + 1, true, closed)[j - 1]);
                    }
                },
                StepRole::Skip => {},
            }
        }
    }
}

/// Every sub-path of contour `c` ends closed exactly when the contour
/// closes: holes always, the outer contour when asked to.
pub proof fn lemma_contour_end_closes(c: usize, kinds: Seq<VertexKind>, close: bool)
    ensures
        ({
            let p = contour_path(c, kinds, close || c > 0);
            forall|j: int|
                0 <= j < p.len() ==> (#[trigger] p[j] matches PathCommand::End(b) ==> b == (close || c > 0))
        }),
{
    lemma_steps_end_flag(c, expanded(kinds), kinds, 0, false, close || c > 0);
}

/// The vertex kinds of each contour.
pub open spec fn kinds_view(cs: Seq<Vec<VertexKind>>) -> Seq<Seq<VertexKind>> {
    Seq::new(cs.len(), |i: int| cs[i]@)
}

/// The path of a polygon shape whose contours hold vertices of these kinds.
pub open spec fn polygon_path_of(cs: Seq<Seq<VertexKind>>, close: bool) -> Seq<PathCommand> {
    path_upto(cs, cs.len() as int, close)
}

fn push_contour_path(result: &mut Vec<PathCommand>, c: usize, kinds: &Vec<VertexKind>, closed: bool)
    ensures
        final(result)@ == old(result)@ + contour_path(c, kinds@, closed),
{
    let exp = expand_curve_vertices(kinds);
    let mut started = false;
    let mut i: usize = 0;
    while i < exp.len()
        invariant
            i <= exp@.len(),
            exp@ == expanded(kinds@),
            result@ + steps_from(c, exp@, kinds@, i as int, started, closed) == old(result)@
                + contour_path(c, kinds@, closed),
        decreases exp@.len() - i,
    {
        let e = exp[i];
        let role = match e {
            Expanded::Keep(j) => if j < kinds.len() {
                match kinds[j] {
                    VertexKind::Normal => StepRole::Point,
                    VertexKind::CubicBezier => StepRole::Curve,
                    VertexKind::QuadraticBezier => StepRole::Curve,
                    VertexKind::Curve => StepRole::Skip,
                }
            } else {
                StepRole::Skip
            },
            Expanded::Point(_) => StepRole::Point,
            Expanded::Segment(_) => StepRole::Curve,
        };
        assert(role == role_of(exp@[i as int], kinds@));
        let ghost rest = steps_from(c, exp@, kinds@, i + 1, true, closed);
        match role {
            StepRole::Point => {
                let cmd = if started {
                    PathCommand::LineTo(c, e)
                } else {
                    PathCommand::Begin(c, e)
                };
                assert(result@ + (seq![cmd] + rest) =~= result@.push(cmd) + rest);
                result.push(cmd);
                started = true;
            },
            StepRole::Curve => {
                if started {
                    let cmd = PathCommand::CurveTo(c, e);
                    assert(result@ + (seq![cmd] + rest) =~= result@.push(cmd) + rest);
                    result.push(cmd);
                }
            },
            StepRole::Skip => {},
        }
        i = i + 1;
    }
    if started {
        result.push(PathCommand::End(closed));
    }
    assert(result@ =~= old(result)@ + contour_path(c, kinds@, closed));
}

/// The path of a polygon shape, contour after contour; empty contours, and
/// contours with nothing to start a sub-path, contribute nothing.
pub fn polygon_path(contours: &Vec<Vec<VertexKind>>, close: bool) -> (r: Vec<PathCommand>)
    ensures
        r@ == polygon_path_of(kinds_view(contours@), close),
{
    let ghost cs = kinds_view(contours@);
    let mut result: Vec<PathCommand> = Vec::new();
    let mut c: usize = 0;
    while c < contours.len()
        invariant
            c <= contours@.len(),
            cs == kinds_view(contours@),
            result@ == path_upto(cs, c as int, close),
        decreases contours@.len() - c,
    {
        let kinds = &contours[c];
        let closed = close || c > 0;
        if kinds.len() == 0 {
            proof {
                assert(expanded(kinds@) == flushed_run(0, 0));
                assert(contour_path(c, kinds@, closed) =~= Seq::<PathCommand>::empty());
                assert(result@ =~= result@ + contour_path(c, kinds@, closed));
            }
        } else {
            push_contour_path(&mut result, c, kinds, closed);
        }
        assert(cs[c as int] == kinds@);
        c = c + 1;
    }
    result
}

/// A contour without curve points expands to its own vertices, unchanged.
pub proof fn lemma_expand_without_curves(kinds: Seq<VertexKind>)
    requires
        forall|j: int| 0 <= j < kinds.len() ==> kinds[j] != VertexKind::Curve,
    ensures
        expanded(kinds) == Seq::new(kinds.len(), |j: int| Expanded::Keep(j as usize)),
{
    lemma_expand_from_without_curves(kinds, 0);
    assert(Seq::new((kinds.len() - 0) as nat, |x: int| Expanded::Keep((0 + x) as usize)) =~= Seq::new(
        kinds.len(),
        |j: int| Expanded::Keep(j as usize),
    ));
}

proof fn lemma_expand_from_without_curves(kinds: Seq<VertexKind>, i: int)
    requires
        0 <= i <= kinds.len(),
        forall|j: int| 0 <= j < kinds.len() ==> kinds[j] != VertexKind::Curve,
    ensures
        expand_from(kinds, i, 0) == Seq::new((kinds.len() - i) as nat, |x: int| Expanded::Keep((i + x) as usize)),
    decreases kinds.len() - i,
{
    if i < kinds.len() {
        lemma_expand_from_without_curves(kinds, i + 1);
        assert(flushed_run(i, 0) =~= Seq::<Expanded>::empty());
        assert(expand_from(kinds, i, 0) =~= Seq::new(
            (kinds.len() - i) as nat,
            |x: int| Expanded::Keep((i + x) as usize),
        ));
    } else {
        assert(expand_from(kinds, i, 0) =~= Seq::<Expanded>::empty());
    }
}

/// How `endShape` draws a shape of some kind.
#[derive(Debug, Clone, Copy, PartialEq, Eq, Structural)]
pub enum ShapeOutput {
    /// Fill and stroke the path of all contours.
    Polygon,
    /// A dot, of the stroke weight, at each plain vertex of the outer contour.
    Points,
    /// Stroke the fixed-topology primitives only.
    StrokeOnly,
    /// Fill and stroke the fixed-topology primitives.
    FillAndStroke,
}

/// How a shape of `kind` is drawn.
pub open spec fn output_of(kind: ShapeKind) -> ShapeOutput {
    match kind {
        ShapeKind::Polygon => ShapeOutput::Polygon,
        ShapeKind::Points => ShapeOutput::Points,
        ShapeKind::Lines => ShapeOutput::StrokeOnly,
        _ => ShapeOutput::FillAndStroke,
    }
}

/// How a shape of `kind` is drawn.
pub fn end_shape_output(kind: ShapeKind) -> (r: ShapeOutput)
    ensures
        r == output_of(kind),
{
    match kind {
        ShapeKind::Polygon => ShapeOutput::Polygon,
        ShapeKind::Points => ShapeOutput::Points,
        ShapeKind::Lines => ShapeOutput::StrokeOnly,
        _ => ShapeOutput::FillAndStroke,
    }
}

/// How `endShape` draws each kind agrees with the primitives it has: a
/// polygon fills and strokes its path and points draw dots, neither with
/// fixed-topology primitives; `LINES` is stroked only; every other kind
/// fills and strokes the same primitives.
pub proof fn lemma_output_matches_faces(kind: ShapeKind, n: int)
    requires
        n >= 0,
    ensures
        (output_of(kind) == ShapeOutput::Polygon) <==> kind == ShapeKind::Polygon,
        (output_of(kind) == ShapeOutput::Points) <==> kind == ShapeKind::Points,
        (output_of(kind) == ShapeOutput::StrokeOnly) <==> kind == ShapeKind::Lines,
        output_of(kind) == ShapeOutput::FillAndStroke ==> direct_stroke_faces(kind, n) == direct_fill_faces(
            kind,
            n,
        ),
        output_of(kind) == ShapeOutput::StrokeOnly ==> direct_fill_faces(kind, n).len() == 0,
        (output_of(kind) == ShapeOutput::Polygon || output_of(kind) == ShapeOutput::Points)
            ==> direct_fill_faces(kind, n).len() == 0 && direct_stroke_faces(kind, n).len() == 0,
{
}

proof fn lemma_normals_upto_exact(kinds: Seq<VertexKind>, n: int)
    requires
        0 <= n <= kinds.len() <= usize::MAX,
    ensures
        forall|j: int| 0 <= j < normals_upto(kinds, n).len() ==> kinds[#[trigger] normals_upto(kinds, n)[j] as int]
            == VertexKind::Normal,
        forall|i: int, j: int| 0 <= i < j < normals_upto(kinds, n).len() ==> normals_upto(kinds, n)[i]
            < normals_upto(kinds, n)[j],
        forall|v: int| 0 <= v < n && kinds[v] == VertexKind::Normal ==> #[trigger] normals_upto(kinds, n).contains(
            v as usize,
        ),
        forall|j: int| 0 <= j < normals_upto(kinds, n).len() ==> #[trigger] normals_upto(kinds, n)[j] < n,
    decreases n,
{
    if n > 0 {
        lemma_normals_upto_exact(kinds, n - 1);
        let prev = normals_upto(kinds, n - 1);
        let cur = normals_upto(kinds, n);
        if kinds[n - 1] == VertexKind::Normal {
            assert(cur == prev.push((n - 1) as usize));
            assert forall|j: int| 0 <= j < cur.len() implies kinds[#[trigger] cur[j] as int] == VertexKind::Normal
                && cur[j] < n by {
                if j < prev.len() {
                    assert(cur[j] == prev[j]);
                }
            }
            assert forall|i: int, j: int| 0 <= i < j < cur.len() implies cur[i] < cur[j] by {
                assert(cur[i] == prev[i]);
                if j < prev.len() {
                    assert(cur[j] == prev[j]);
                }
            }
        } else {
            assert(cur == prev);
            assert forall|v: int| 0 <= v < n && kinds[v] == VertexKind::Normal implies #[trigger] cur.contains(
                v as usize,
            ) by {
                assert(prev.contains(v as usize));
            }
        }
        if kinds[n - 1] == VertexKind::Normal {
            assert forall|v: int| 0 <= v < n && kinds[v] == VertexKind::Normal implies #[trigger] cur.contains(
                v as usize,
            ) by {
                if v < n - 1 {
                    assert(prev.contains(v as usize));
                    let k = choose|k: int| 0 <= k < prev.len() && prev[k] == v as usize;
                    assert(cur[k] == prev[k]);
                } else {
                    assert(cur[prev.len() as int] == (n - 1) as usize);
                }
            }
        }
    }
}

/// The plain vertices that points and fixed-topology shapes use are exactly
/// the vertices of kind `Normal`, each once, in the order they were given.
pub proof fn lemma_plain_vertices(kinds: Seq<VertexKind>)
    requires
        kinds.len() <= usize::MAX,
    ensures
        forall|j: int| 0 <= j < normals_of(kinds).len() ==> kinds[#[trigger] normals_of(kinds)[j] as int]
            == VertexKind::Normal,
        forall|i: int, j: int| 0 <= i < j < normals_of(kinds).len() ==> normals_of(kinds)[i] < normals_of(
            kinds,
        )[j],
        forall|v: int| 0 <= v < kinds.len() && kinds[v] == VertexKind::Normal ==> #[trigger] normals_of(
            kinds,
        ).contains(v as usize),
{
    lemma_normals_upto_exact(kinds, kinds.len() as int);
}

} // verus!
