//! The accumulator of triangle geometry: shapes are appended one after
//! another to a single vertex list and a single index list.

use vstd::prelude::*;
use lyon::tessellation::VertexBuffers;
use crate::buffers::{
    clone_buffers, held_indices, held_vertices, indices_of, new_buffers, push_index, push_vertex,
    vertices_of,
};
use crate::draw::DrawMode;
use crate::scalar::{LinearColor, Point, Rect, Scalar};
use crate::shape::{
    is_triangles_over, triangles_over, Geometry, Shape, Tessellation, TessellationError,
    VertexGeometry,
};
use crate::vertex::{Vertex, VertexBuilder};

verus! {

/// The vertices and indices of a mesh, as mathematics sees them.
pub struct MeshContents {
    pub vertices: Seq<Vertex>,
    pub indices: Seq<u32>,
}

impl MeshContents {
    /// A triangle list: the indices come in threes, each names a vertex, and
    /// the vertices can all be named by a 32-bit index.
    pub open spec fn wf(self) -> bool {
        &&& self.vertices.len() <= 0x1_0000_0000
        &&& triangles_over(self.vertices.len(), self.indices)
    }

    pub open spec fn empty() -> MeshContents {
        MeshContents { vertices: Seq::empty(), indices: Seq::empty() }
    }

    /// The contents after a piece of geometry was added: its vertices follow
    /// the ones held, and its indices, which count from its own first
    /// vertex, are moved up by the number of vertices held before.
    pub open spec fn extended(self, vertices: Seq<Vertex>, indices: Seq<u32>) -> MeshContents {
        MeshContents {
            vertices: self.vertices + vertices,
            indices: self.indices + Seq::new(
                indices.len(),
                |i: int| (self.vertices.len() + indices[i]) as u32,
            ),
        }
    }

    /// The contents after a tessellator answered with `outcome` for
    /// positions that get the colour `color`: a failure, or geometry that is
    /// refused, adds nothing.
    pub open spec fn accepted(
        self,
        color: LinearColor,
        outcome: Result<Geometry, TessellationError>,
    ) -> MeshContents {
        match outcome {
            Ok(geometry) => if refusal(
                self.vertices.len(),
                geometry.vertices@.len(),
                geometry.indices@,
            ) is None {
                self.extended(stamped(geometry.vertices@, color), geometry.indices@)
            } else {
                self
            },
            Err(_) => self,
        }
    }

    /// As [`MeshContents::accepted`], for a tessellator that made the
    /// vertices itself.
    pub open spec fn accepted_vertices(
        self,
        outcome: Result<VertexGeometry, TessellationError>,
    ) -> MeshContents {
        match outcome {
            Ok(geometry) => if refusal(
                self.vertices.len(),
                geometry.vertices@.len(),
                geometry.indices@,
            ) is None {
                self.extended(geometry.vertices@, geometry.indices@)
            } else {
                self
            },
            Err(_) => self,
        }
    }
}

/// Why geometry of `count` vertices with the triangles `indices` cannot be
/// added where `held` vertices are held already, if it cannot.
pub open spec fn refusal(held: nat, count: nat, indices: Seq<u32>) -> Option<TessellationError> {
    if count > 0 && held + count > u32::MAX {
        Some(TessellationError::TooManyVertices)
    } else if !triangles_over(count, indices) {
        Some(TessellationError::Malformed)
    } else {
        None
    }
}

/// What a tessellator's answer amounts to once the geometry in it was
/// examined: its own failure, the refusal of its geometry, or success.
pub open spec fn verdict<V>(held: nat, outcome: Result<Tessellation<V>, TessellationError>) -> Result<
    (),
    TessellationError,
> {
    match outcome {
        Ok(geometry) => match refusal(held, geometry.vertices@.len(), geometry.indices@) {
            Some(error) => Err(error),
            None => Ok(()),
        },
        Err(error) => Err(error),
    }
}

/// The vertices of a tessellated shape: one for each position, untextured
/// and of one colour.
pub open spec fn stamped(positions: Seq<Point>, color: LinearColor) -> Seq<Vertex> {
    Seq::new(positions.len(), |i: int| Vertex::untextured(positions[i], color))
}

/// The vertices of triangles given point by point: one for each point,
/// textured by its own position and of one colour.
pub open spec fn corners(points: Seq<Point>, color: LinearColor) -> Seq<Vertex> {
    Seq::new(points.len(), |i: int| Vertex::at(points[i], color))
}

/// The indices `0, 1, 2, ...`, `count` of them.
pub open spec fn consecutive(count: nat) -> Seq<u32> {
    Seq::new(count, |i: int| i as u32)
}

/// Why a shape was not added.
#[derive(Clone, Copy, Debug, PartialEq, Eq, Structural)]
pub enum MeshError {
    /// A line of fewer than 2 points.
    PolylineTooShort,
    /// A polygon of fewer than 3 points.
    PolygonTooShort,
    /// A triangle list whose length is no multiple of 3.
    IncompleteTriangle,
    /// The tessellator failed, or its geometry was refused.
    Tessellation(TessellationError),
}

impl MeshError {
    /// The points that the shape would have needed, where it had too few.
    pub open spec fn minimum_points_spec(self) -> Option<usize> {
        match self {
            MeshError::PolylineTooShort => Some(2usize),
            MeshError::PolygonTooShort => Some(3usize),
            _ => None,
        }
    }

    #[verifier::when_used_as_spec(minimum_points_spec)]
    pub fn minimum_points(self) -> (minimum: Option<usize>)
        ensures
            minimum == self.minimum_points_spec(),
    {
        match self {
            MeshError::PolylineTooShort => Some(2),
            MeshError::PolygonTooShort => Some(3),
            _ => None,
        }
    }

    /// The text of [`MeshError::message`].
    pub open spec fn message_spec(self) -> Seq<char> {
        match self {
            MeshError::PolylineTooShort => "MeshBuilder::polyline() got a list of < 2 points"@,
            MeshError::PolygonTooShort => "MeshBuilder::polygon() got a list of < 3 points"@,
            MeshError::IncompleteTriangle =>
                "Called Mesh::triangles() with points that have a length not a multiple of 3."@,
            MeshError::Tessellation(error) => match error {
                TessellationError::UnsupportedParameter =>
                    "Error while tessellating shape: unsupported parameter"@,
                TessellationError::InvalidVertex =>
                    "Error while tessellating shape (did you give it an infinity or NaN?): invalid vertex"@,
                TessellationError::TooManyVertices =>
                    "Error while tessellating shape: too many vertices"@,
                TessellationError::Internal(_) =>
                    "Error while tessellating shape (did you give it an infinity or NaN?): internal error"@,
                TessellationError::Malformed =>
                    "Error while tessellating shape: the triangles do not fit the vertices"@,
            },
        }
    }

    /// What went wrong, in words.
    pub fn message(&self) -> (text: String)
        ensures
            text@ == self.message_spec(),
    {
        match self {
            MeshError::PolylineTooShort => "MeshBuilder::polyline() got a list of < 2 points".to_owned(),
            MeshError::PolygonTooShort => "MeshBuilder::polygon() got a list of < 3 points".to_owned(),
            MeshError::IncompleteTriangle =>
                "Called Mesh::triangles() with points that have a length not a multiple of 3.".to_owned(),
            MeshError::Tessellation(error) => match error {
                TessellationError::UnsupportedParameter =>
                    "Error while tessellating shape: unsupported parameter".to_owned(),
                TessellationError::InvalidVertex =>
                    "Error while tessellating shape (did you give it an infinity or NaN?): invalid vertex".to_owned(),
                TessellationError::TooManyVertices =>
                    "Error while tessellating shape: too many vertices".to_owned(),
                TessellationError::Internal(_) =>
                    "Error while tessellating shape (did you give it an infinity or NaN?): internal error".to_owned(),
                TessellationError::Malformed =>
                    "Error while tessellating shape: the triangles do not fit the vertices".to_owned(),
            },
        }
    }
}

/// Borrowed mesh data.
#[derive(Clone, Copy, Debug)]
pub struct MeshData<'a> {
    /// List of vertices.
    pub vertices: &'a [Vertex],
    /// List of indices (indices into `vertices`).
    pub indices: &'a [u32],
}

impl<'a> View for MeshData<'a> {
    type V = MeshContents;

    open spec fn view(&self) -> MeshContents {
        MeshContents { vertices: self.vertices@, indices: self.indices@ }
    }
}

/// Builder pattern for constructing meshes.
#[derive(Debug)]
pub struct MeshBuilder {
    buffer: VertexBuffers<Vertex, u32>,
}

impl View for MeshBuilder {
    type V = MeshContents;

    closed spec fn view(&self) -> MeshContents {
        MeshContents { vertices: held_vertices(self.buffer), indices: held_indices(self.buffer) }
    }
}

impl MeshBuilder {
    /// What every builder holds: a triangle list.
    pub open spec fn wf(&self) -> bool {
        self@.wf()
    }

    /// Create a new, empty builder.
    pub fn new() -> (builder: MeshBuilder)
        ensures
            builder.wf(),
            builder@ == MeshContents::empty(),
    {
        MeshBuilder { buffer: new_buffers() }
    }

    /// Adds geometry whose indices count from its own first vertex, or
    /// refuses it and adds nothing.
    pub fn append(&mut self, geometry: VertexGeometry) -> (result: Result<(), TessellationError>)
        requires
            old(self).wf(),
        ensures
            final(self).wf(),
            result == verdict(old(self)@.vertices.len(), Ok(geometry)),
            final(self)@ == old(self)@.accepted_vertices(Ok(geometry)),
    {
        let held = vertices_of(&self.buffer).len();
        let count = geometry.vertices.len();
        let limit: usize = 0xFFFF_FFFF;
        if count > 0 && (held > limit || count > limit - held) {
            return Err(TessellationError::TooManyVertices);
        }
        if !is_triangles_over(count, geometry.indices.as_slice()) {
            return Err(TessellationError::Malformed);
        }
        let Tessellation { vertices, indices } = geometry;
        let ghost before = self@;
        let ghost added = vertices@;
        let mut k: usize = 0;
        while k < vertices.len()
            invariant
                k <= vertices.len(),
                vertices@ == added,
                held_vertices(self.buffer) == before.vertices + added.take(k as int),
                held_indices(self.buffer) == before.indices,
            decreases vertices.len() - k,
        {
            push_vertex(&mut self.buffer, vertices[k]);
            k += 1;
            assert(held_vertices(self.buffer) == before.vertices + added.take(k as int));
        }
        assert(added.take(k as int) == added);
        let mut i: usize = 0;
        while i < indices.len()
            invariant
                i <= indices.len(),
                before.wf(),
                held == before.vertices.len(),
                count == added.len(),
                count > 0 ==> held + count <= u32::MAX,
                triangles_over(count as nat, indices@),
                held_vertices(self.buffer) == before.vertices + added,
                held_indices(self.buffer) == before.indices + Seq::new(
                    i as nat,
                    |j: int| (held + indices@[j]) as u32,
                ),
            decreases indices.len() - i,
        {
            let index = indices[i];
            assert(index < count);
            push_index(&mut self.buffer, index + held as u32);
            i += 1;
        }
        Ok(())
    }

    /// Settles what a tessellator answered for a shape drawn in one colour:
    /// on success each position becomes an untextured vertex of that colour
    /// and the geometry is added; otherwise the builder stays as it was.
    pub fn accept(
        &mut self,
        mode: DrawMode,
        color: LinearColor,
        outcome: Result<Geometry, TessellationError>,
    ) -> (result: Result<(), TessellationError>)
        requires
            old(self).wf(),
        ensures
            final(self).wf(),
            result == verdict(old(self)@.vertices.len(), outcome),
            final(self)@ == old(self)@.accepted(color, outcome),
    {
        match outcome {
            Err(error) => Err(error),
            Ok(geometry) => {
                let vb = VertexBuilder::new(color);
                let Tessellation { vertices: positions, indices } = geometry;
                let mut vertices: Vec<Vertex> = Vec::new();
                let mut i: usize = 0;
                while i < positions.len()
                    invariant
                        i <= positions.len(),
                        vb.color == color,
                        vertices@ == stamped(positions@.take(i as int), color),
                    decreases positions.len() - i,
                {
                    let vertex = match mode {
                        DrawMode::Stroke(_) => vb.stroke_vertex(positions[i]),
                        DrawMode::Fill(_) => vb.fill_vertex(positions[i]),
                    };
                    vertices.push(vertex);
                    i += 1;
                    assert(vertices@ == stamped(positions@.take(i as int), color));
                }
                assert(positions@.take(i as int) == positions@);
                self.append(Tessellation { vertices, indices })
            },
        }
    }

    /// Adds triangles given corner by corner: each three points make one
    /// triangle, no vertex is shared, and every vertex is textured by its own
    /// position.
    pub fn triangles(&mut self, triangles: &[Point], color: LinearColor) -> (result: Result<
        (),
        MeshError,
    >)
        requires
            old(self).wf(),
            triangles@.len() % 3 == 0 ==> old(self)@.vertices.len() + triangles@.len()
                <= 0x1_0000_0000,
        ensures
            final(self).wf(),
            triangles@.len() % 3 != 0 ==> result == Err::<(), MeshError>(
                MeshError::IncompleteTriangle,
            ) && final(self)@ == old(self)@,
            triangles@.len() % 3 == 0 ==> result is Ok && final(self)@ == old(self)@.extended(
                corners(triangles@, color),
                consecutive(triangles@.len()),
            ),
    {
        if triangles.len() % 3 != 0 {
            return Err(MeshError::IncompleteTriangle);
        }
        let vb = VertexBuilder::new(color);
        let ghost before = self@;
        let mut i: usize = 0;
        while i < triangles.len()
            invariant
                i <= triangles.len(),
                i % 3 == 0,
                triangles@.len() % 3 == 0,
                vb.color == color,
                before.wf(),
                before.vertices.len() + triangles@.len() <= 0x1_0000_0000,
                self@ == before.extended(
                    corners(triangles@.take(i as int), color),
                    consecutive(i as nat),
                ),
            decreases triangles.len() - i,
        {
            let first_index: u32 = vertices_of(&self.buffer).len() as u32;
            push_vertex(&mut self.buffer, vb.new_vertex(triangles[i]));
            push_vertex(&mut self.buffer, vb.new_vertex(triangles[i + 1]));
            push_vertex(&mut self.buffer, vb.new_vertex(triangles[i + 2]));
            push_index(&mut self.buffer, first_index);
            push_index(&mut self.buffer, first_index + 1);
            push_index(&mut self.buffer, first_index + 2);
            i += 3;
            assert(self@.vertices == before.vertices + corners(triangles@.take(i as int), color));
            assert(self@.indices == before.extended(
                corners(triangles@.take(i as int), color),
                consecutive(i as nat),
            ).indices);
        }
        assert(triangles@.take(i as int) == triangles@);
        Ok(())
    }

    /// Takes the accumulated geometry and returns it as [`MeshData`], leaving
    /// the builder as it is.
    pub fn build(&self) -> (data: MeshData<'_>)
        ensures
            data@ == self@,
    {
        MeshData { vertices: vertices_of(&self.buffer), indices: indices_of(&self.buffer) }
    }

    /// Create a new mesh for a closed polygon.
    /// The points given must be in clockwise order,
    /// otherwise at best the polygon will not draw.
    pub fn polygon<'a, F>(
        &mut self,
        mode: DrawMode,
        points: &'a [Point],
        color: LinearColor,
        tessellate: F,
    ) -> (result: Result<(), MeshError>) where
        F: FnOnce(DrawMode, Shape<'a>) -> Result<Geometry, TessellationError>,

        requires
            old(self).wf(),
            points@.len() >= 3 ==> tessellate.requires(
                (mode, Shape::Polygon { points, closed: true }),
            ),
        ensures
            final(self).wf(),
            points@.len() < 3 ==> result == Err::<(), MeshError>(MeshError::PolygonTooShort)
                && final(self)@ == old(self)@,
            points@.len() >= 3 ==> exists|outcome: Result<Geometry, TessellationError>|
                {
                    &&& #[trigger] tessellate.ensures(
                        (mode, Shape::Polygon { points, closed: true }),
                        outcome,
                    )
                    &&& final(self)@ == old(self)@.accepted(color, outcome)
                    &&& result == reported(verdict(old(self)@.vertices.len(), outcome))
                },
    {
        if points.len() < 3 {
            return Err(MeshError::PolygonTooShort);
        }
        self.polyline_inner(mode, points, true, color, tessellate)
    }

    /// Create a new mesh for a line of one or more connected segments.
    pub fn line<'a, F>(
        &mut self,
        points: &'a [Point],
        width: Scalar,
        color: LinearColor,
        tessellate: F,
    ) -> (result: Result<(), MeshError>) where
        F: FnOnce(DrawMode, Shape<'a>) -> Result<Geometry, TessellationError>,

        requires
            old(self).wf(),
            points@.len() >= 2 ==> tessellate.requires(
                (DrawMode::stroke_spec(width), Shape::Polygon { points, closed: false }),
            ),
        ensures
            final(self).wf(),
            points@.len() < 2 ==> result == Err::<(), MeshError>(MeshError::PolylineTooShort)
                && final(self)@ == old(self)@,
            points@.len() >= 2 ==> exists|outcome: Result<Geometry, TessellationError>|
                {
                    &&& #[trigger] tessellate.ensures(
                        (DrawMode::stroke_spec(width), Shape::Polygon { points, closed: false }),
                        outcome,
                    )
                    &&& final(self)@ == old(self)@.accepted(color, outcome)
                    &&& result == reported(verdict(old(self)@.vertices.len(), outcome))
                },
    {
        self.polyline(DrawMode::stroke(width), points, color, tessellate)
    }

    /// Create a new mesh for a series of connected lines.
    pub fn polyline<'a, F>(
        &mut self,
        mode: DrawMode,
        points: &'a [Point],
        color: LinearColor,
        tessellate: F,
    ) -> (result: Result<(), MeshError>) where
        F: FnOnce(DrawMode, Shape<'a>) -> Result<Geometry, TessellationError>,

        requires
            old(self).wf(),
            points@.len() >= 2 ==> tessellate.requires(
                (mode, Shape::Polygon { points, closed: false }),
            ),
        ensures
            final(self).wf(),
            points@.len() < 2 ==> result == Err::<(), MeshError>(MeshError::PolylineTooShort)
                && final(self)@ == old(self)@,
            points@.len() >= 2 ==> exists|outcome: Result<Geometry, TessellationError>|
                {
                    &&& #[trigger] tessellate.ensures(
                        (mode, Shape::Polygon { points, closed: false }),
                        outcome,
                    )
                    &&& final(self)@ == old(self)@.accepted(color, outcome)
                    &&& result == reported(verdict(old(self)@.vertices.len(), outcome))
                },
    {
        if points.len() < 2 {
            return Err(MeshError::PolylineTooShort);
        }
        self.polyline_inner(mode, points, false, color, tessellate)
    }

    fn polyline_inner<'a, F>(
        &mut self,
        mode: DrawMode,
        points: &'a [Point],
        is_closed: bool,
        color: LinearColor,
        tessellate: F,
    ) -> (result: Result<(), MeshError>) where
        F: FnOnce(DrawMode, Shape<'a>) -> Result<Geometry, TessellationError>,

        requires
            old(self).wf(),
            tessellate.requires((mode, Shape::Polygon { points, closed: is_closed })),
        ensures
            final(self).wf(),
            exists|outcome: Result<Geometry, TessellationError>|
                {
                    &&& #[trigger] tessellate.ensures(
                        (mode, Shape::Polygon { points, closed: is_closed }),
                        outcome,
                    )
                    &&& final(self)@ == old(self)@.accepted(color, outcome)
                    &&& result == reported(verdict(old(self)@.vertices.len(), outcome))
                },
    {
        match self.add_shape(mode, Shape::Polygon { points, closed: is_closed }, color, tessellate) {
            Ok(()) => Ok(()),
            Err(error) => Err(MeshError::Tessellation(error)),
        }
    }

    /// Has `shape` tessellated and settles the answer.
    fn add_shape<'a, F>(
        &mut self,
        mode: DrawMode,
        shape: Shape<'a>,
        color: LinearColor,
        tessellate: F,
    ) -> (result: Result<(), TessellationError>) where
        F: FnOnce(DrawMode, Shape<'a>) -> Result<Geometry, TessellationError>,

        requires
            old(self).wf(),
            tessellate.requires((mode, shape)),
        ensures
            final(self).wf(),
            exists|outcome: Result<Geometry, TessellationError>|
                {
                    &&& #[trigger] tessellate.ensures((mode, shape), outcome)
                    &&& final(self)@ == old(self)@.accepted(color, outcome)
                    &&& result == verdict(old(self)@.vertices.len(), outcome)
                },
    {
        let outcome = tessellate(mode, shape);
        self.accept(mode, color, outcome)
    }

    /// Create a new mesh for a given polyline with vertices of the caller's
    /// own making: the tessellator hands back whole vertices.
    /// The points given must be in clockwise order.
    pub fn polyline_with_vertex_builder<'a, F>(
        &mut self,
        mode: DrawMode,
        points: &'a [Point],
        is_closed: bool,
        tessellate: F,
    ) -> (result: Result<(), MeshError>) where
        F: FnOnce(DrawMode, Shape<'a>) -> Result<VertexGeometry, TessellationError>,

        requires
            old(self).wf(),
            points@.len() > 1,
            tessellate.requires((mode, Shape::Polygon { points, closed: is_closed })),
        ensures
            final(self).wf(),
            exists|outcome: Result<VertexGeometry, TessellationError>|
                {
                    &&& #[trigger] tessellate.ensures(
                        (mode, Shape::Polygon { points, closed: is_closed }),
                        outcome,
                    )
                    &&& final(self)@ == old(self)@.accepted_vertices(outcome)
                    &&& result == reported(verdict(old(self)@.vertices.len(), outcome))
                },
    {
        let outcome = tessellate(mode, Shape::Polygon { points, closed: is_closed });
        match outcome {
            Ok(geometry) => match self.append(geometry) {
                Ok(()) => Ok(()),
                Err(error) => Err(MeshError::Tessellation(error)),
            },
            Err(error) => Err(MeshError::Tessellation(error)),
        }
    }

    /// Create a new mesh for a circle.
    ///
    /// The circle is drawn as segments that stay within `tolerance` of it;
    /// the tolerance replaces the one among the options of `mode`. A
    /// tessellation that fails adds nothing, and its failure is the error.
    pub fn circle<'a, F>(
        &mut self,
        mode: DrawMode,
        point: Point,
        radius: Scalar,
        tolerance: Scalar,
        color: LinearColor,
        tessellate: F,
    ) -> (result: Result<(), MeshError>) where
        F: FnOnce(DrawMode, Shape<'a>) -> Result<Geometry, TessellationError>,

        requires
            old(self).wf(),
            tolerance.is_positive_spec(),
            tessellate.requires(
                (mode.with_tolerance_spec(tolerance), Shape::Circle { center: point, radius }),
            ),
        ensures
            final(self).wf(),
            exists|outcome: Result<Geometry, TessellationError>|
                {
                    &&& #[trigger] tessellate.ensures(
                        (
                            mode.with_tolerance_spec(tolerance),
                            Shape::Circle { center: point, radius },
                        ),
                        outcome,
                    )
                    &&& final(self)@ == old(self)@.accepted(color, outcome)
                    &&& result == reported(verdict(old(self)@.vertices.len(), outcome))
                },
    {
        let shape = Shape::Circle { center: point, radius };
        match self.add_shape(mode.with_tolerance(tolerance), shape, color, tessellate) {
            Ok(()) => Ok(()),
            Err(error) => Err(MeshError::Tessellation(error)),
        }
    }

    /// Create a new mesh for an ellipse whose axes lie along the coordinate
    /// axes.
    ///
    /// The ellipse is drawn as segments that stay within `tolerance` of it;
    /// the tolerance replaces the one among the options of `mode`. A
    /// tessellation that fails adds nothing, and its failure is the error.
    pub fn ellipse<'a, F>(
        &mut self,
        mode: DrawMode,
        point: Point,
        radius1: Scalar,
        radius2: Scalar,
        tolerance: Scalar,
        color: LinearColor,
        tessellate: F,
    ) -> (result: Result<(), MeshError>) where
        F: FnOnce(DrawMode, Shape<'a>) -> Result<Geometry, TessellationError>,

        requires
            old(self).wf(),
            tolerance.is_positive_spec(),
            tessellate.requires(
                (
                    mode.with_tolerance_spec(tolerance),
                    Shape::Ellipse { center: point, radius1, radius2 },
                ),
            ),
        ensures
            final(self).wf(),
            exists|outcome: Result<Geometry, TessellationError>|
                {
                    &&& #[trigger] tessellate.ensures(
                        (
                            mode.with_tolerance_spec(tolerance),
                            Shape::Ellipse { center: point, radius1, radius2 },
                        ),
                        outcome,
                    )
                    &&& final(self)@ == old(self)@.accepted(color, outcome)
                    &&& result == reported(verdict(old(self)@.vertices.len(), outcome))
                },
    {
        let shape = Shape::Ellipse { center: point, radius1, radius2 };
        match self.add_shape(mode.with_tolerance(tolerance), shape, color, tessellate) {
            Ok(()) => Ok(()),
            Err(error) => Err(MeshError::Tessellation(error)),
        }
    }

    /// Create a new mesh for a rectangle. A tessellation that fails adds
    /// nothing, and its failure is the error.
    pub fn rectangle<'a, F>(
        &mut self,
        mode: DrawMode,
        bounds: Rect,
        color: LinearColor,
        tessellate: F,
    ) -> (result: Result<(), MeshError>) where
        F: FnOnce(DrawMode, Shape<'a>) -> Result<Geometry, TessellationError>,

        requires
            old(self).wf(),
            tessellate.requires((mode, Shape::Rectangle { bounds })),
        ensures
            final(self).wf(),
            exists|outcome: Result<Geometry, TessellationError>|
                {
                    &&& #[trigger] tessellate.ensures((mode, Shape::Rectangle { bounds }), outcome)
                    &&& final(self)@ == old(self)@.accepted(color, outcome)
                    &&& result == reported(verdict(old(self)@.vertices.len(), outcome))
                },
    {
        match self.add_shape(mode, Shape::Rectangle { bounds }, color, tessellate) {
            Ok(()) => Ok(()),
            Err(error) => Err(MeshError::Tessellation(error)),
        }
    }

    /// Create a new mesh for a rounded rectangle. A tessellation that fails
    /// adds nothing, and its failure is the error.
    pub fn rounded_rectangle<'a, F>(
        &mut self,
        mode: DrawMode,
        bounds: Rect,
        radius: Scalar,
        color: LinearColor,
        tessellate: F,
    ) -> (result: Result<(), MeshError>) where
        F: FnOnce(DrawMode, Shape<'a>) -> Result<Geometry, TessellationError>,

        requires
            old(self).wf(),
            tessellate.requires((mode, Shape::RoundedRectangle { bounds, radius })),
        ensures
            final(self).wf(),
            exists|outcome: Result<Geometry, TessellationError>|
                {
                    &&& #[trigger] tessellate.ensures(
                        (mode, Shape::RoundedRectangle { bounds, radius }),
                        outcome,
                    )
                    &&& final(self)@ == old(self)@.accepted(color, outcome)
                    &&& result == reported(verdict(old(self)@.vertices.len(), outcome))
                },
    {
        match self.add_shape(mode, Shape::RoundedRectangle { bounds, radius }, color, tessellate) {
            Ok(()) => Ok(()),
            Err(error) => Err(MeshError::Tessellation(error)),
        }
    }
}

impl Clone for MeshBuilder {
    fn clone(&self) -> (copy: MeshBuilder)
        ensures
            copy@ == self@,
    {
        MeshBuilder { buffer: clone_buffers(&self.buffer) }
    }
}

impl Default for MeshBuilder {
    fn default() -> (builder: MeshBuilder)
        ensures
            builder.wf(),
            builder@ == MeshContents::empty(),
    {
        MeshBuilder { buffer: new_buffers() }
    }
}

/// A tessellation's verdict as the shape operations report it.
pub open spec fn reported(verdict: Result<(), TessellationError>) -> Result<(), MeshError> {
    match verdict {
        Ok(()) => Ok(()),
        Err(error) => Err(MeshError::Tessellation(error)),
    }
}

/// Geometry is only ever added behind what is held: the vertices and
/// indices from before a tessellator's answer was settled are still the
/// first ones afterwards, in their order, and a triangle list stays one.
pub proof fn accepted_keeps_what_was_held(
    before: MeshContents,
    color: LinearColor,
    outcome: Result<Geometry, TessellationError>,
)
    requires
        before.wf(),
    ensures
        before.accepted(color, outcome).wf(),
        before.vertices.is_prefix_of(before.accepted(color, outcome).vertices),
        before.indices.is_prefix_of(before.accepted(color, outcome).indices),
        verdict(before.vertices.len(), outcome) is Err ==> before.accepted(color, outcome)
            == before,
{
    let after = before.accepted(color, outcome);
    if verdict(before.vertices.len(), outcome) is Ok {
        let geometry = outcome->Ok_0;
        let moved = Seq::new(
            geometry.indices@.len(),
            |i: int| (before.vertices.len() + geometry.indices@[i]) as u32,
        );
        assert(after.indices == before.indices + moved);
        assert forall|i: int| 0 <= i < after.indices.len() implies (#[trigger] after.indices[i])
            < after.vertices.len() by {
            if i >= before.indices.len() {
                let j = i - before.indices.len();
                assert(geometry.indices@[j] < geometry.vertices@.len());
                assert(after.indices[i] == moved[j]);
            }
        }
    }
}

/// The triangles of a tessellated shape name the vertices of that shape:
/// every index that was added points behind the vertices held before, at
/// the vertex that the tessellator meant, and that vertex is untextured,
/// of the colour asked for, and where the tessellator put it.
pub proof fn accepted_triangles_are_the_shape(
    before: MeshContents,
    color: LinearColor,
    geometry: Geometry,
    i: int,
)
    requires
        before.wf(),
        refusal(before.vertices.len(), geometry.vertices@.len(), geometry.indices@) is None,
        0 <= i < geometry.indices@.len(),
    ensures
        ({
            let after = before.accepted(color, Ok(geometry));
            let index = after.indices[before.indices.len() + i];
            &&& after.vertices.len() == before.vertices.len() + geometry.vertices@.len()
            &&& after.indices.len() == before.indices.len() + geometry.indices@.len()
            &&& index == before.vertices.len() + geometry.indices@[i]
            &&& after.vertices[index as int] == Vertex::untextured(
                geometry.vertices@[geometry.indices@[i] as int],
                color,
            )
        }),
{
    let after = before.accepted(color, Ok(geometry));
    assert(geometry.indices@[i] < geometry.vertices@.len());
}

/// A mesh made of triangles given corner by corner numbers its vertices in
/// the order in which they came: where the indices held are `0, 1, 2, ...`,
/// one for each vertex, they are so again after more triangles were added,
/// and their number is a multiple of three.
pub proof fn triangles_number_their_corners(
    before: MeshContents,
    points: Seq<Point>,
    color: LinearColor,
)
    requires
        before.wf(),
        before.indices == consecutive(before.vertices.len()),
        points.len() % 3 == 0,
        before.vertices.len() + points.len() <= 0x1_0000_0000,
    ensures
        ({
            let after = before.extended(corners(points, color), consecutive(points.len()));
            &&& after.wf()
            &&& after.indices == consecutive(after.vertices.len())
            &&& after.indices.len() == after.vertices.len()
            &&& after.indices.len() % 3 == 0
            &&& forall|i: int|
                0 <= i < points.len() ==> #[trigger] after.vertices[before.vertices.len() + i]
                    == Vertex::at(points[i], color)
        }),
{
    let after = before.extended(corners(points, color), consecutive(points.len()));
    assert(after.indices =~= consecutive(after.vertices.len()));
}

/// An empty builder numbers its vertices in order, there being none.
pub proof fn empty_numbers_its_corners()
    ensures
        MeshContents::empty().wf(),
        MeshContents::empty().indices == consecutive(MeshContents::empty().vertices.len()),
{
    assert(MeshContents::empty().indices =~= consecutive(0));
}

/// Reading a builder twice without a change in between gives the same
/// vertices and the same indices.
pub proof fn build_is_repeatable(builder: MeshBuilder, first: MeshData, second: MeshData)
    requires
        first@ == builder@,
        second@ == builder@,
    ensures
        first.vertices@ == second.vertices@,
        first.indices@ == second.indices@,
{
}

} // verus!
