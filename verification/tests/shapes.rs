use lyon::math::{point, rect, vector, Angle, Point as LyonPoint};
use lyon::path::builder::BorderRadii;
use lyon::path::traits::PathBuilder;
use lyon::path::{Path, Polygon, Winding};
use lyon::tessellation as tess;
use mesh2d::builder::{MeshBuilder, MeshError};
use mesh2d::draw::{DrawMode, FillOptions, FillRule, LineCap, LineJoin, Orientation, StrokeOptions};
use mesh2d::scalar::{LinearColor, Point, Rect, Scalar};
use mesh2d::shape::{Geometry, InternalError, Shape, TessellationError};
use mesh2d::vertex::Vertex;

fn scalar(x: f32) -> Scalar {
    Scalar::from_bits(x.to_bits())
}

fn number(s: Scalar) -> f32 {
    f32::from_bits(s.to_bits())
}

fn pt(x: f32, y: f32) -> Point {
    Point::new(scalar(x), scalar(y))
}

fn lyon_point(p: Point) -> LyonPoint {
    point(number(p.x), number(p.y))
}

fn fill_options(options: FillOptions) -> tess::FillOptions {
    tess::FillOptions::DEFAULT
        .with_tolerance(number(options.tolerance))
        .with_fill_rule(match options.fill_rule {
            FillRule::EvenOdd => tess::FillRule::EvenOdd,
            FillRule::NonZero => tess::FillRule::NonZero,
        })
        .with_sweep_orientation(match options.sweep_orientation {
            Orientation::Horizontal => tess::Orientation::Horizontal,
            Orientation::Vertical => tess::Orientation::Vertical,
        })
        .with_intersections(options.handle_intersections)
}

fn line_cap(cap: LineCap) -> tess::LineCap {
    match cap {
        LineCap::Butt => tess::LineCap::Butt,
        LineCap::Square => tess::LineCap::Square,
        LineCap::Round => tess::LineCap::Round,
    }
}

fn stroke_options(options: StrokeOptions) -> tess::StrokeOptions {
    let mut out = tess::StrokeOptions::DEFAULT
        .with_start_cap(line_cap(options.start_cap))
        .with_end_cap(line_cap(options.end_cap))
        .with_line_join(match options.line_join {
            LineJoin::Miter => tess::LineJoin::Miter,
            LineJoin::MiterClip => tess::LineJoin::MiterClip,
            LineJoin::Round => tess::LineJoin::Round,
            LineJoin::Bevel => tess::LineJoin::Bevel,
        })
        .with_line_width(number(options.line_width))
        .with_tolerance(number(options.tolerance));
    out.miter_limit = number(options.miter_limit);
    out
}

fn failure(error: tess::TessellationError) -> TessellationError {
    match error {
        tess::TessellationError::UnsupportedParamater => TessellationError::UnsupportedParameter,
        tess::TessellationError::InvalidVertex => TessellationError::InvalidVertex,
        tess::TessellationError::TooManyVertices => TessellationError::TooManyVertices,
        tess::TessellationError::Internal(inner) => TessellationError::Internal(match inner {
            tess::InternalError::IncorrectActiveEdgeOrder(code) => {
                InternalError::IncorrectActiveEdgeOrder(code)
            }
            tess::InternalError::InsufficientNumberOfSpans => {
                InternalError::InsufficientNumberOfSpans
            }
            tess::InternalError::InsufficientNumberOfEdges => {
                InternalError::InsufficientNumberOfEdges
            }
            tess::InternalError::MergeVertexOutside => InternalError::MergeVertexOutside,
            tess::InternalError::InvalidNumberOfEdgesBelowVertex => {
                InternalError::InvalidNumberOfEdgesBelowVertex
            }
            tess::InternalError::ErrorCode(code) => InternalError::ErrorCode(code),
        }),
    }
}

/// The tessellator that the shape operations are given in these tests.
fn tessellate(mode: DrawMode, shape: Shape) -> Result<Geometry, TessellationError> {
    let mut buffers: tess::VertexBuffers<LyonPoint, u32> = tess::VertexBuffers::new();
    let result = {
        let mut out = tess::BuffersBuilder::new(&mut buffers, tess::geometry_builder::Positions);
        match mode {
            DrawMode::Fill(options) => {
                let options = fill_options(options);
                let mut tessellator = tess::FillTessellator::new();
                match shape {
                    Shape::Polygon { points, closed } => {
                        let points: Vec<LyonPoint> = points.iter().map(|p| lyon_point(*p)).collect();
                        tessellator.tessellate_polygon(
                            Polygon { points: &points, closed },
                            &options,
                            &mut out,
                        )
                    }
                    Shape::Circle { center, radius } => tessellator.tessellate_circle(
                        lyon_point(center),
                        number(radius),
                        &options,
                        &mut out,
                    ),
                    Shape::Ellipse { center, radius1, radius2 } => tessellator.tessellate_ellipse(
                        lyon_point(center),
                        vector(number(radius1), number(radius2)),
                        Angle { radians: 0.0 },
                        Winding::Positive,
                        &options,
                        &mut out,
                    ),
                    Shape::Rectangle { bounds } => tessellator.tessellate_rectangle(
                        &rect(number(bounds.x), number(bounds.y), number(bounds.w), number(bounds.h)),
                        &options,
                        &mut out,
                    ),
                    Shape::RoundedRectangle { bounds, radius } => {
                        let mut path = Path::builder();
                        path.add_rounded_rectangle(
                            &rect(
                                number(bounds.x),
                                number(bounds.y),
                                number(bounds.w),
                                number(bounds.h),
                            ),
                            &BorderRadii::new(number(radius)),
                            Winding::Positive,
                        );
                        let path = path.build();
                        tessellator.tessellate_path(&path, &options, &mut out)
                    }
                }
            }
            DrawMode::Stroke(options) => {
                let options = stroke_options(options);
                let mut tessellator = tess::StrokeTessellator::new();
                match shape {
                    Shape::Polygon { points, closed } => {
                        let points: Vec<LyonPoint> = points.iter().map(|p| lyon_point(*p)).collect();
                        tessellator.tessellate_polygon(
                            Polygon { points: &points, closed },
                            &options,
                            &mut out,
                        )
                    }
                    Shape::Circle { center, radius } => tessellator.tessellate_circle(
                        lyon_point(center),
                        number(radius),
                        &options,
                        &mut out,
                    ),
                    Shape::Ellipse { center, radius1, radius2 } => tessellator.tessellate_ellipse(
                        lyon_point(center),
                        vector(number(radius1), number(radius2)),
                        Angle { radians: 0.0 },
                        Winding::Positive,
                        &options,
                        &mut out,
                    ),
                    Shape::Rectangle { bounds } => tessellator.tessellate_rectangle(
                        &rect(number(bounds.x), number(bounds.y), number(bounds.w), number(bounds.h)),
                        &options,
                        &mut out,
                    ),
                    Shape::RoundedRectangle { bounds, radius } => {
                        let mut path = Path::builder();
                        path.add_rounded_rectangle(
                            &rect(
                                number(bounds.x),
                                number(bounds.y),
                                number(bounds.w),
                                number(bounds.h),
                            ),
                            &BorderRadii::new(number(radius)),
                            Winding::Positive,
                        );
                        let path = path.build();
                        tessellator.tessellate_path(&path, &options, &mut out)
                    }
                }
            }
        }
    };
    match result {
        Ok(_) => {
            let positions = buffers
                .vertices
                .iter()
                .map(|p| Point::new(scalar(p.x), scalar(p.y)))
                .collect();
            Ok(Geometry::new(positions, buffers.indices))
        }
        Err(error) => Err(failure(error)),
    }
}

fn white_at(x: f32, y: f32) -> Vertex {
    Vertex {
        position: [scalar(x), scalar(y)],
        uv: [scalar(0.0), scalar(0.0)],
        color: [scalar(1.0), scalar(1.0), scalar(1.0), scalar(1.0)],
    }
}

fn assert_triangle_list(builder: &MeshBuilder) {
    let data = builder.build();
    assert_eq!(data.indices.len() % 3, 0);
    for index in data.indices {
        assert!((*index as usize) < data.vertices.len());
    }
}

#[test]
fn filled_rectangle_is_two_white_triangles() {
    let mut builder = MeshBuilder::new();
    let bounds = Rect::new(scalar(0.0), scalar(0.0), scalar(10.0), scalar(10.0));
    let result = builder.rectangle(DrawMode::fill(), bounds, LinearColor::white(), tessellate);
    assert_eq!(result, Ok(()));
    let data = builder.build();
    assert_eq!(data.vertices.len(), 4);
    assert_eq!(data.indices.len(), 6);
    assert_eq!(
        data.vertices,
        &[white_at(0.0, 0.0), white_at(0.0, 10.0), white_at(10.0, 10.0), white_at(10.0, 0.0)]
    );
    assert_eq!(data.indices, &[0, 1, 2, 0, 2, 3]);
    for vertex in data.vertices {
        for channel in vertex.color {
            assert_eq!(channel.to_bits(), 1.0f32.to_bits());
        }
        assert_eq!(vertex.uv[0].to_bits(), 0);
        assert_eq!(vertex.uv[1].to_bits(), 0);
    }
}

#[test]
fn polygon_of_two_points_fails_and_leaves_builder_empty() {
    let mut builder = MeshBuilder::new();
    let points = [pt(0.0, 0.0), pt(1.0, 1.0)];
    let result = builder.polygon(
        DrawMode::fill(),
        &points,
        LinearColor::white(),
        |_: DrawMode, _: Shape| -> Result<Geometry, TessellationError> {
            panic!("a polygon of two points is not tessellated")
        },
    );
    assert_eq!(result, Err(MeshError::PolygonTooShort));
    assert_eq!(result.unwrap_err().minimum_points(), Some(3));
    assert!(result.unwrap_err().message().contains("< 3 points"));
    let data = builder.build();
    assert!(data.vertices.is_empty());
    assert!(data.indices.is_empty());
}

#[test]
fn short_lines_fail_and_change_nothing() {
    let mut builder = MeshBuilder::new();
    builder
        .rectangle(
            DrawMode::fill(),
            Rect::new(scalar(0.0), scalar(0.0), scalar(1.0), scalar(1.0)),
            LinearColor::white(),
            tessellate,
        )
        .unwrap();
    let before_vertices = builder.build().vertices.to_vec();
    let before_indices = builder.build().indices.to_vec();
    let unreachable_tessellator = |_: DrawMode, _: Shape| -> Result<Geometry, TessellationError> {
        panic!("a line of one point is not tessellated")
    };

    let one = [pt(3.0, 4.0)];
    let none: [Point; 0] = [];
    assert_eq!(
        builder.line(&one, scalar(2.0), LinearColor::white(), unreachable_tessellator),
        Err(MeshError::PolylineTooShort)
    );
    assert_eq!(
        builder.line(&none, scalar(2.0), LinearColor::white(), unreachable_tessellator),
        Err(MeshError::PolylineTooShort)
    );
    assert_eq!(
        builder.polyline(DrawMode::fill(), &one, LinearColor::white(), unreachable_tessellator),
        Err(MeshError::PolylineTooShort)
    );
    assert_eq!(
        builder.polygon(DrawMode::stroke(scalar(1.0)), &one, LinearColor::white(), unreachable_tessellator),
        Err(MeshError::PolygonTooShort)
    );
    assert_eq!(MeshError::PolylineTooShort.minimum_points(), Some(2));
    assert!(MeshError::PolylineTooShort.message().contains("< 2 points"));
    assert_eq!(builder.build().vertices, &before_vertices[..]);
    assert_eq!(builder.build().indices, &before_indices[..]);
}

#[test]
fn two_points_make_a_line_but_no_polygon() {
    let points = [pt(0.0, 0.0), pt(10.0, 0.0)];
    let mut builder = MeshBuilder::new();
    assert_eq!(builder.line(&points, scalar(2.0), LinearColor::white(), tessellate), Ok(()));
    let data = builder.build();
    // A straight stroke with butt caps is one quad around the segment.
    assert_eq!(data.vertices.len(), 4);
    assert_eq!(data.indices.len(), 6);
    let mut ys: Vec<f32> = data.vertices.iter().map(|v| number(v.position[1])).collect();
    ys.sort_by(|a, b| a.partial_cmp(b).unwrap());
    assert_eq!(ys, vec![-1.0, -1.0, 1.0, 1.0]);
    assert_triangle_list(&builder);

    let mut other = MeshBuilder::new();
    assert_eq!(
        other.polygon(DrawMode::fill(), &points, LinearColor::white(), tessellate),
        Err(MeshError::PolygonTooShort)
    );
}

#[test]
fn line_strokes_with_the_given_width() {
    let points = [pt(0.0, 0.0), pt(1.0, 0.0)];
    let mut seen: Option<(DrawMode, bool, usize)> = None;
    let mut builder = MeshBuilder::new();
    let result = builder.line(&points, scalar(7.5), LinearColor::white(), |mode: DrawMode, shape: Shape| {
        if let Shape::Polygon { points, closed } = shape {
            seen = Some((mode, closed, points.len()));
        }
        Ok(Geometry::new(vec![], vec![]))
    });
    assert_eq!(result, Ok(()));
    let (mode, closed, count) = seen.unwrap();
    assert!(!closed);
    assert_eq!(count, 2);
    match mode {
        DrawMode::Stroke(options) => {
            assert_eq!(number(options.line_width), 7.5);
            assert_eq!(number(options.tolerance), 0.1);
            assert_eq!(number(options.miter_limit), 4.0);
            assert_eq!(options.start_cap, LineCap::Butt);
            assert_eq!(options.end_cap, LineCap::Butt);
            assert_eq!(options.line_join, LineJoin::Miter);
        }
        DrawMode::Fill(_) => panic!("a line is stroked"),
    }
}

#[test]
fn polygon_is_closed_and_polyline_is_open() {
    let points = [pt(0.0, 0.0), pt(1.0, 0.0), pt(1.0, 1.0)];
    let mut closed_seen = Vec::new();
    let mut builder = MeshBuilder::new();
    builder
        .polygon(DrawMode::fill(), &points, LinearColor::white(), |_: DrawMode, shape: Shape| {
            if let Shape::Polygon { closed, .. } = shape {
                closed_seen.push(closed);
            }
            Ok(Geometry::new(vec![], vec![]))
        })
        .unwrap();
    builder
        .polyline(DrawMode::fill(), &points, LinearColor::white(), |_: DrawMode, shape: Shape| {
            if let Shape::Polygon { closed, .. } = shape {
                closed_seen.push(closed);
            }
            Ok(Geometry::new(vec![], vec![]))
        })
        .unwrap();
    assert_eq!(closed_seen, vec![true, false]);
}

#[test]
fn filled_triangle_keeps_its_three_corners() {
    let points = [pt(0.0, 0.0), pt(4.0, 0.0), pt(0.0, 3.0)];
    let mut builder = MeshBuilder::new();
    assert_eq!(builder.polygon(DrawMode::fill(), &points, LinearColor::white(), tessellate), Ok(()));
    let data = builder.build();
    assert_eq!(data.vertices.len(), 3);
    assert_eq!(data.indices.len(), 3);
    let mut indices = data.indices.to_vec();
    indices.sort();
    assert_eq!(indices, vec![0, 1, 2]);
    for corner in points {
        assert!(data
            .vertices
            .iter()
            .any(|v| v.position[0] == corner.x && v.position[1] == corner.y));
    }
}

#[test]
fn second_shape_is_numbered_after_the_first() {
    let mut builder = MeshBuilder::new();
    let red = LinearColor::new(scalar(1.0), scalar(0.0), scalar(0.0), scalar(1.0));
    builder
        .rectangle(
            DrawMode::fill(),
            Rect::new(scalar(0.0), scalar(0.0), scalar(10.0), scalar(10.0)),
            LinearColor::white(),
            tessellate,
        )
        .unwrap();
    builder
        .rectangle(
            DrawMode::fill(),
            Rect::new(scalar(20.0), scalar(20.0), scalar(5.0), scalar(5.0)),
            red,
            tessellate,
        )
        .unwrap();
    let data = builder.build();
    assert_eq!(data.vertices.len(), 8);
    assert_eq!(data.indices, &[0, 1, 2, 0, 2, 3, 4, 5, 6, 4, 6, 7]);
    assert_eq!(data.vertices[0], white_at(0.0, 0.0));
    assert_eq!(number(data.vertices[4].position[0]), 20.0);
    assert_eq!(number(data.vertices[6].position[0]), 25.0);
    for vertex in &data.vertices[4..] {
        assert_eq!(vertex.color.map(number), [1.0, 0.0, 0.0, 1.0]);
        assert_eq!(vertex.uv.map(number), [0.0, 0.0]);
    }
}

#[test]
fn circle_replaces_the_tolerance_of_the_mode() {
    let mut tolerances = Vec::new();
    let mut builder = MeshBuilder::new();
    for mode in [DrawMode::fill(), DrawMode::stroke(scalar(3.0))] {
        let result = builder.circle(
            mode,
            pt(1.0, 2.0),
            scalar(5.0),
            scalar(0.25),
            LinearColor::white(),
            |mode: DrawMode, shape: Shape| {
                match (mode, shape) {
                    (DrawMode::Fill(options), Shape::Circle { center, radius }) => {
                        assert_eq!(options.fill_rule, FillRule::EvenOdd);
                        assert_eq!(options.sweep_orientation, Orientation::Vertical);
                        assert!(options.handle_intersections);
                        assert_eq!((number(center.x), number(center.y)), (1.0, 2.0));
                        assert_eq!(number(radius), 5.0);
                        tolerances.push(number(options.tolerance));
                    }
                    (DrawMode::Stroke(options), Shape::Circle { .. }) => {
                        assert_eq!(number(options.line_width), 3.0);
                        tolerances.push(number(options.tolerance));
                    }
                    _ => panic!("a circle was asked for"),
                }
                Ok(Geometry::new(vec![], vec![]))
            },
        );
        assert_eq!(result, Ok(()));
    }
    assert_eq!(tolerances, vec![0.25, 0.25]);
}

#[test]
fn ellipse_hands_over_both_radii_and_the_tolerance() {
    let mut builder = MeshBuilder::new();
    let mut asked = false;
    builder
        .ellipse(
            DrawMode::fill(),
            pt(-1.0, 1.0),
            scalar(4.0),
            scalar(2.0),
            scalar(0.5),
            LinearColor::white(),
            |mode: DrawMode, shape: Shape| {
                match (mode, shape) {
                    (DrawMode::Fill(options), Shape::Ellipse { center, radius1, radius2 }) => {
                        assert_eq!(number(options.tolerance), 0.5);
                        assert_eq!((number(center.x), number(center.y)), (-1.0, 1.0));
                        assert_eq!((number(radius1), number(radius2)), (4.0, 2.0));
                        asked = true;
                    }
                    _ => panic!("a filled ellipse was asked for"),
                }
                Ok(Geometry::new(vec![], vec![]))
            },
        )
        .unwrap();
    assert!(asked);
}

#[test]
fn curved_shapes_are_triangle_lists_of_one_colour() {
    let blue = LinearColor::new(scalar(0.0), scalar(0.0), scalar(1.0), scalar(0.5));
    let bounds = Rect::new(scalar(0.0), scalar(0.0), scalar(40.0), scalar(20.0));
    for mode in [DrawMode::fill(), DrawMode::stroke(scalar(2.0))] {
        let mut builder = MeshBuilder::new();
        builder.circle(mode, pt(0.0, 0.0), scalar(10.0), scalar(0.1), blue, tessellate).unwrap();
        let after_circle = builder.build().vertices.len();
        assert!(after_circle > 4);
        assert_triangle_list(&builder);

        builder
            .ellipse(mode, pt(5.0, 5.0), scalar(10.0), scalar(4.0), scalar(0.1), blue, tessellate)
            .unwrap();
        let after_ellipse = builder.build().vertices.len();
        assert!(after_ellipse > after_circle + 4);
        assert_triangle_list(&builder);

        builder.rounded_rectangle(mode, bounds, scalar(3.0), blue, tessellate).unwrap();
        let after_rounded = builder.build().vertices.len();
        assert!(after_rounded > after_ellipse + 4);
        assert_triangle_list(&builder);

        builder.rectangle(mode, bounds, blue, tessellate).unwrap();
        assert!(builder.build().vertices.len() >= after_rounded + 4);
        assert_triangle_list(&builder);

        for vertex in builder.build().vertices {
            assert_eq!(vertex.color.map(number), [0.0, 0.0, 1.0, 0.5]);
            assert_eq!(vertex.uv.map(|s| s.to_bits()), [0, 0]);
        }
    }
}

#[test]
fn circle_vertices_lie_within_tolerance_of_the_circle() {
    let mut builder = MeshBuilder::new();
    builder
        .circle(DrawMode::fill(), pt(3.0, -2.0), scalar(10.0), scalar(0.05), LinearColor::white(), tessellate)
        .unwrap();
    for vertex in builder.build().vertices {
        let dx = number(vertex.position[0]) - 3.0;
        let dy = number(vertex.position[1]) + 2.0;
        let distance = (dx * dx + dy * dy).sqrt();
        assert!((distance - 10.0).abs() < 0.05);
    }
}

#[test]
fn finer_tolerance_gives_more_triangles() {
    let mut coarse = MeshBuilder::new();
    coarse
        .circle(DrawMode::fill(), pt(0.0, 0.0), scalar(100.0), scalar(5.0), LinearColor::white(), tessellate)
        .unwrap();
    let mut fine = MeshBuilder::new();
    fine.circle(DrawMode::fill(), pt(0.0, 0.0), scalar(100.0), scalar(0.01), LinearColor::white(), tessellate)
        .unwrap();
    assert!(fine.build().indices.len() > coarse.build().indices.len());
}

#[test]
fn circle_of_radius_zero_adds_nothing() {
    let mut builder = MeshBuilder::new();
    let result = builder.circle(
        DrawMode::fill(),
        pt(0.0, 0.0),
        scalar(0.0),
        scalar(0.1),
        LinearColor::white(),
        tessellate,
    );
    assert_eq!(result, Ok(()));
    assert!(builder.build().vertices.is_empty());
    assert!(builder.build().indices.is_empty());
}

#[test]
fn failed_tessellation_is_the_error_of_every_shape() {
    let failing = |_: DrawMode, _: Shape| -> Result<Geometry, TessellationError> {
        Err(TessellationError::Internal(InternalError::ErrorCode(7)))
    };
    let expected = Err(MeshError::Tessellation(TessellationError::Internal(InternalError::ErrorCode(7))));
    let points = [pt(0.0, 0.0), pt(1.0, 0.0), pt(1.0, 1.0)];
    let bounds = Rect::new(scalar(0.0), scalar(0.0), scalar(1.0), scalar(1.0));
    let white = LinearColor::white();
    let mut builder = MeshBuilder::new();
    builder.triangles(&points, white).unwrap();

    assert_eq!(builder.polygon(DrawMode::fill(), &points, white, failing), expected);
    assert_eq!(builder.polyline(DrawMode::fill(), &points, white, failing), expected);
    assert_eq!(builder.line(&points, scalar(1.0), white, failing), expected);
    assert!(expected.unwrap_err().message().starts_with("Error while tessellating shape"));
    assert_eq!(expected.unwrap_err().minimum_points(), None);

    for mode in [DrawMode::fill(), DrawMode::stroke(scalar(2.0))] {
        assert_eq!(builder.circle(mode, points[0], scalar(1.0), scalar(0.1), white, failing), expected);
        assert_eq!(
            builder.ellipse(mode, points[0], scalar(1.0), scalar(2.0), scalar(0.1), white, failing),
            expected
        );
        assert_eq!(builder.rectangle(mode, bounds, white, failing), expected);
        assert_eq!(builder.rounded_rectangle(mode, bounds, scalar(0.2), white, failing), expected);
    }

    assert_eq!(builder.build().vertices.len(), 3);
    assert_eq!(builder.build().indices, &[0, 1, 2]);
}

#[test]
fn refused_geometry_is_the_error_of_every_shape() {
    let misfit = |_: DrawMode, _: Shape| -> Result<Geometry, TessellationError> {
        Ok(Geometry::new(vec![pt(0.0, 0.0), pt(1.0, 0.0)], vec![0, 1, 2]))
    };
    let expected = Err(MeshError::Tessellation(TessellationError::Malformed));
    let bounds = Rect::new(scalar(0.0), scalar(0.0), scalar(1.0), scalar(1.0));
    let white = LinearColor::white();
    let mut builder = MeshBuilder::new();
    assert_eq!(builder.circle(DrawMode::fill(), pt(0.0, 0.0), scalar(1.0), scalar(0.1), white, misfit), expected);
    assert_eq!(
        builder.ellipse(DrawMode::fill(), pt(0.0, 0.0), scalar(1.0), scalar(2.0), scalar(0.1), white, misfit),
        expected
    );
    assert_eq!(builder.rectangle(DrawMode::fill(), bounds, white, misfit), expected);
    assert_eq!(builder.rounded_rectangle(DrawMode::fill(), bounds, scalar(0.2), white, misfit), expected);
    assert!(builder.build().vertices.is_empty());
    assert!(builder.build().indices.is_empty());
}

#[test]
fn square_cornered_rounded_rectangle_with_a_tolerance_of_zero_is_reported() {
    let bounds = Rect::new(scalar(0.0), scalar(0.0), scalar(40.0), scalar(20.0));
    let mode = DrawMode::Fill(FillOptions::new().with_tolerance(scalar(0.0)));
    let mut builder = MeshBuilder::new();
    builder
        .triangles(&[pt(0.0, 0.0), pt(1.0, 0.0), pt(0.0, 1.0)], LinearColor::white())
        .unwrap();
    let result = builder.rounded_rectangle(mode, bounds, scalar(0.0), LinearColor::white(), tessellate);
    assert_eq!(result, Err(MeshError::Tessellation(TessellationError::UnsupportedParameter)));
    assert!(result.unwrap_err().message().contains("unsupported parameter"));
    assert_eq!(builder.build().vertices.len(), 3);
    assert_eq!(builder.build().indices, &[0, 1, 2]);

    let fine = DrawMode::Fill(FillOptions::new());
    assert_eq!(
        builder.rounded_rectangle(fine, bounds, scalar(3.0), LinearColor::white(), tessellate),
        Ok(())
    );
    assert!(builder.build().vertices.len() > 3);
}

#[test]
fn polygon_with_a_tolerance_of_zero_is_reported() {
    let points = [pt(0.0, 0.0), pt(4.0, 0.0), pt(0.0, 3.0)];
    let mode = DrawMode::Fill(FillOptions::new().with_tolerance(scalar(0.0)));
    let mut builder = MeshBuilder::new();
    builder.triangles(&points, LinearColor::white()).unwrap();
    let result = builder.polygon(mode, &points, LinearColor::white(), tessellate);
    assert_eq!(result, Err(MeshError::Tessellation(TessellationError::UnsupportedParameter)));
    assert!(result.unwrap_err().message().contains("unsupported parameter"));
    assert_eq!(builder.build().vertices.len(), 3);
    assert_eq!(builder.build().indices, &[0, 1, 2]);
}

#[test]
fn non_zero_fill_rule_reaches_the_tessellator() {
    let points = [pt(0.0, 0.0), pt(4.0, 0.0), pt(0.0, 3.0)];
    let mode = DrawMode::Fill(FillOptions { fill_rule: FillRule::NonZero, ..FillOptions::new() });
    let mut builder = MeshBuilder::new();
    assert_eq!(builder.polygon(mode, &points, LinearColor::white(), tessellate), Ok(()));
    assert_eq!(builder.build().vertices.len(), 3);
    assert_eq!(fill_options(FillOptions { fill_rule: FillRule::NonZero, ..FillOptions::new() }), tess::FillOptions::non_zero());
}

#[test]
fn default_options_are_those_of_the_tessellator() {
    let fill = FillOptions::new();
    assert_eq!(number(fill.tolerance), tess::FillOptions::DEFAULT_TOLERANCE);
    assert_eq!(fill_options(fill), tess::FillOptions::default());
    let stroke = StrokeOptions::new();
    assert_eq!(number(stroke.line_width), tess::StrokeOptions::DEFAULT_LINE_WIDTH);
    assert_eq!(number(stroke.miter_limit), tess::StrokeOptions::DEFAULT_MITER_LIMIT);
    assert_eq!(number(stroke.tolerance), tess::StrokeOptions::DEFAULT_TOLERANCE);
    assert_eq!(stroke_options(stroke), tess::StrokeOptions::default());
    assert_eq!(
        stroke_options(stroke.with_line_width(scalar(9.0)).with_tolerance(scalar(0.5))),
        tess::StrokeOptions::default().with_line_width(9.0).with_tolerance(0.5)
    );
    assert_eq!(fill_options(fill.with_tolerance(scalar(2.0))), tess::FillOptions::tolerance(2.0));
    match DrawMode::fill().with_tolerance(scalar(0.75)) {
        DrawMode::Fill(options) => assert_eq!(number(options.tolerance), 0.75),
        DrawMode::Stroke(_) => panic!("a fill stays a fill"),
    }
    match DrawMode::stroke(scalar(2.0)).with_tolerance(scalar(0.75)) {
        DrawMode::Stroke(options) => {
            assert_eq!(number(options.tolerance), 0.75);
            assert_eq!(number(options.line_width), 2.0);
        }
        DrawMode::Fill(_) => panic!("a stroke stays a stroke"),
    }
}
