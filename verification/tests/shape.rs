use processing_render::render::command::ShapeKind;
use processing_render::render::shape::{
    direct_faces, direct_fill, direct_stroke, end_shape_output, expand_curve_vertices,
    normal_vertices, polygon_path, quad_indices, triangle_indices, Expanded, Face, PathCommand,
    ShapeBuilder, ShapeOutput, VertexKind,
};

use Face::{Quad, Segment, Triangle};

#[test]
fn builder_routes_vertices_to_contours() {
    let mut b: ShapeBuilder<u32> = ShapeBuilder::new(ShapeKind::Polygon);
    b.push_vertex(1);
    b.push_vertex(2);
    b.begin_contour();
    b.push_vertex(3);
    b.end_contour();
    b.push_vertex(4);
    assert_eq!(b.contours.len(), 2);
    assert_eq!(b.contours[0].vertices, vec![1, 2, 4]);
    assert_eq!(b.contours[1].vertices, vec![3]);
    assert!(!b.in_contour);
}

#[test]
fn triangles_drop_trailing_vertices() {
    assert_eq!(
        direct_fill(ShapeKind::Triangles, 7),
        vec![Triangle(0, 1, 2), Triangle(3, 4, 5)]
    );
}

#[test]
fn fan_shares_the_first_vertex() {
    assert_eq!(
        direct_fill(ShapeKind::TriangleFan, 5),
        vec![Triangle(0, 1, 2), Triangle(0, 2, 3), Triangle(0, 3, 4)]
    );
    assert_eq!(direct_fill(ShapeKind::TriangleFan, 2), vec![]);
}

#[test]
fn strip_alternates_winding() {
    assert_eq!(
        direct_fill(ShapeKind::TriangleStrip, 5),
        vec![Triangle(0, 1, 2), Triangle(2, 1, 3), Triangle(2, 3, 4)]
    );
}

#[test]
fn quads_and_quad_strips() {
    assert_eq!(direct_fill(ShapeKind::Quads, 9), vec![Quad(0, 1, 2, 3), Quad(4, 5, 6, 7)]);
    assert_eq!(direct_fill(ShapeKind::QuadStrip, 6), vec![Quad(0, 1, 3, 2), Quad(2, 3, 5, 4)]);
    assert_eq!(direct_fill(ShapeKind::QuadStrip, 5), vec![Quad(0, 1, 3, 2)]);
    assert_eq!(direct_fill(ShapeKind::QuadStrip, 3), vec![]);
}

#[test]
fn lines_are_stroked_in_pairs_and_not_filled() {
    assert_eq!(direct_fill(ShapeKind::Lines, 4), vec![]);
    assert_eq!(direct_stroke(ShapeKind::Lines, 5), vec![Segment(0, 1), Segment(2, 3)]);
    assert_eq!(direct_stroke(ShapeKind::Triangles, 3), vec![Triangle(0, 1, 2)]);
}

#[test]
fn direct_faces_skip_non_plain_vertices() {
    let kinds = vec![VertexKind::Normal, VertexKind::CubicBezier, VertexKind::Normal, VertexKind::Normal, VertexKind::Curve, VertexKind::Normal];
    assert_eq!(normal_vertices(&kinds), vec![0, 2, 3, 5]);
    assert_eq!(direct_faces(ShapeKind::Triangles, &kinds, false), vec![Triangle(0, 2, 3)]);
    assert_eq!(direct_faces(ShapeKind::Lines, &kinds, true), vec![Segment(0, 2), Segment(3, 5)]);
}

#[test]
fn curve_runs_expand_to_catmull_rom_spans() {
    let kinds = vec![VertexKind::Normal, VertexKind::Curve, VertexKind::Curve, VertexKind::Curve, VertexKind::Curve, VertexKind::Curve, VertexKind::Normal];
    assert_eq!(
        expand_curve_vertices(&kinds),
        vec![
            Expanded::Keep(0),
            Expanded::Point(2),
            Expanded::Segment(1),
            Expanded::Segment(2),
            Expanded::Keep(6),
        ]
    );
    let three = vec![VertexKind::Curve, VertexKind::Curve, VertexKind::Curve];
    assert_eq!(expand_curve_vertices(&three), vec![Expanded::Point(1)]);
    let two = vec![VertexKind::Curve, VertexKind::Curve];
    assert_eq!(expand_curve_vertices(&two), vec![]);
    let plain = vec![VertexKind::Normal, VertexKind::QuadraticBezier, VertexKind::Normal];
    assert_eq!(
        expand_curve_vertices(&plain),
        vec![Expanded::Keep(0), Expanded::Keep(1), Expanded::Keep(2)]
    );
}

#[test]
fn polygon_path_closes_holes_always() {
    let contours = vec![vec![VertexKind::Normal, VertexKind::Normal, VertexKind::Normal], vec![], vec![VertexKind::Normal, VertexKind::CubicBezier]];
    assert_eq!(
        polygon_path(&contours, false),
        vec![
            PathCommand::Begin(0, Expanded::Keep(0)),
            PathCommand::LineTo(0, Expanded::Keep(1)),
            PathCommand::LineTo(0, Expanded::Keep(2)),
            PathCommand::End(false),
            PathCommand::Begin(2, Expanded::Keep(0)),
            PathCommand::CurveTo(2, Expanded::Keep(1)),
            PathCommand::End(true),
        ]
    );
}

#[test]
fn curves_before_a_start_are_skipped() {
    let contours = vec![vec![VertexKind::QuadraticBezier, VertexKind::Normal, VertexKind::Curve, VertexKind::Curve, VertexKind::Curve, VertexKind::Curve]];
    assert_eq!(
        polygon_path(&contours, true),
        vec![
            PathCommand::Begin(0, Expanded::Keep(1)),
            PathCommand::LineTo(0, Expanded::Point(3)),
            PathCommand::CurveTo(0, Expanded::Segment(2)),
            PathCommand::End(true),
        ]
    );
    let nothing = vec![vec![VertexKind::CubicBezier]];
    assert_eq!(polygon_path(&nothing, true), vec![]);
}

#[test]
fn mesh_indices_for_appended_primitives() {
    assert_eq!(triangle_indices(10), [10, 11, 12]);
    assert_eq!(quad_indices(4), [4, 5, 6, 4, 6, 7]);
}

#[test]
fn end_shape_outputs_by_kind() {
    assert_eq!(end_shape_output(ShapeKind::Polygon), ShapeOutput::Polygon);
    assert_eq!(end_shape_output(ShapeKind::Points), ShapeOutput::Points);
    assert_eq!(end_shape_output(ShapeKind::Lines), ShapeOutput::StrokeOnly);
    assert_eq!(end_shape_output(ShapeKind::Quads), ShapeOutput::FillAndStroke);
}

#[test]
fn lattice_points_vary_z_fastest() {
    let pts = processing_render::render::lattice::lattice_points(2, 2, 3);
    assert_eq!(pts.len(), 12);
    assert_eq!(pts[0], (0, 0, 0));
    assert_eq!(pts[1], (0, 0, 1));
    assert_eq!(pts[3], (0, 1, 0));
    assert_eq!(pts[7], (1, 0, 1));
    assert_eq!(pts[11], (1, 1, 2));
    assert!(processing_render::render::lattice::lattice_points(0, 5, 5).is_empty());
}
