//! What is asked of a tessellator and what comes back from it.

use vstd::prelude::*;
use crate::scalar::{Point, Rect, Scalar};

verus! {

/// The outline handed to the tessellator.
#[derive(Clone, Copy, Debug)]
pub enum Shape<'a> {
    /// Straight segments from point to point, and back to the first one
    /// where `closed`.
    Polygon { points: &'a [Point], closed: bool },
    Circle { center: Point, radius: Scalar },
    /// An ellipse with its axes along the coordinate axes.
    Ellipse { center: Point, radius1: Scalar, radius2: Scalar },
    Rectangle { bounds: Rect },
    /// A rectangle whose four corners are arcs of the given radius.
    RoundedRectangle { bounds: Rect, radius: Scalar },
}

/// Why a tessellation failed from the inside.
#[derive(Clone, Copy, Debug, PartialEq, Eq, Structural)]
pub enum InternalError {
    IncorrectActiveEdgeOrder(i16),
    InsufficientNumberOfSpans,
    InsufficientNumberOfEdges,
    MergeVertexOutside,
    InvalidNumberOfEdgesBelowVertex,
    ErrorCode(i16),
}

/// Why a shape gave no triangles.
#[derive(Clone, Copy, Debug, PartialEq, Eq, Structural)]
pub enum TessellationError {
    UnsupportedParameter,
    InvalidVertex,
    /// The vertices would no longer be numbered by 32-bit indices.
    TooManyVertices,
    Internal(InternalError),
    /// The triangles do not fit the vertices: an index names no vertex, or
    /// the indices do not come in threes.
    Malformed,
}

/// Triangles over vertices of type `V`: each three indices, counted from the
/// first vertex of this value, make one triangle.
#[derive(Debug)]
pub struct Tessellation<V> {
    pub vertices: Vec<V>,
    pub indices: Vec<u32>,
}

/// What a tessellator returns for a shape: the positions of the vertices and
/// the triangles over them.
pub type Geometry = Tessellation<Point>;

/// What a tessellator returns where it also makes the vertices.
pub type VertexGeometry = Tessellation<crate::vertex::Vertex>;

/// Whether `indices` are triangles over `count` vertices: they come in threes
/// and each names a vertex.
pub open spec fn triangles_over(count: nat, indices: Seq<u32>) -> bool {
    &&& indices.len() % 3 == 0
    &&& forall|i: int| 0 <= i < indices.len() ==> (#[trigger] indices[i]) < count
}

impl<V> Tessellation<V> {
    pub open spec fn wf(self) -> bool {
        triangles_over(self.vertices@.len(), self.indices@)
    }

    pub fn new(vertices: Vec<V>, indices: Vec<u32>) -> (t: Tessellation<V>)
        ensures
            t.vertices == vertices,
            t.indices == indices,
    {
        Tessellation { vertices, indices }
    }
}

/// Decides [`triangles_over`].
pub fn is_triangles_over(count: usize, indices: &[u32]) -> (r: bool)
    ensures
        r == triangles_over(count as nat, indices@),
{
    if indices.len() % 3 != 0 {
        return false;
    }
    let mut i: usize = 0;
    while i < indices.len()
        invariant
            i <= indices.len(),
            forall|j: int| 0 <= j < i ==> (#[trigger] indices@[j]) < count,
        decreases indices.len() - i,
    {
        if indices[i] as usize >= count {
            return false;
        }
        i += 1;
    }
    true
}

} // verus!
