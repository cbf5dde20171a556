//! The tessellator's pair of vertex and index lists, which the builder
//! accumulates into.
//!
//! The type is lyon's, so the verifier sees nothing inside it. What it holds
//! has a name here, and each function below is believed, not proved, to do
//! to the contents what its contract says.

use vstd::prelude::*;
use lyon::tessellation::VertexBuffers;
use crate::vertex::Vertex;

verus! {

/// `lyon::tessellation::VertexBuffers`: a struct of two public fields, the
/// list `vertices` and the list `indices`.
#[verifier::external_type_specification]
#[verifier::external_body]
#[verifier::reject_recursive_types(OutputVertex)]
#[verifier::reject_recursive_types(OutputIndex)]
pub struct ExVertexBuffers<OutputVertex, OutputIndex>(VertexBuffers<OutputVertex, OutputIndex>);

/// The vertices that the buffers hold, in order.
pub uninterp spec fn held_vertices(buffers: VertexBuffers<Vertex, u32>) -> Seq<Vertex>;

/// The indices that the buffers hold, in order.
pub uninterp spec fn held_indices(buffers: VertexBuffers<Vertex, u32>) -> Seq<u32>;

/// `VertexBuffers::new`: the buffers it makes have room set aside and hold
/// neither a vertex nor an index.
#[verifier::external_body]
pub(crate) fn new_buffers() -> (buffers: VertexBuffers<Vertex, u32>)
    ensures
        held_vertices(buffers) == Seq::<Vertex>::empty(),
        held_indices(buffers) == Seq::<u32>::empty(),
{
    VertexBuffers::new()
}

/// `Vec::push` on the field `vertices`: the vertex is added behind the ones
/// held, and the indices stay.
#[verifier::external_body]
pub(crate) fn push_vertex(buffers: &mut VertexBuffers<Vertex, u32>, vertex: Vertex)
    ensures
        held_vertices(*final(buffers)) == held_vertices(*old(buffers)).push(vertex),
        held_indices(*final(buffers)) == held_indices(*old(buffers)),
{
    buffers.vertices.push(vertex);
}

/// `Vec::push` on the field `indices`: the index is added behind the ones
/// held, and the vertices stay.
#[verifier::external_body]
pub(crate) fn push_index(buffers: &mut VertexBuffers<Vertex, u32>, index: u32)
    ensures
        held_indices(*final(buffers)) == held_indices(*old(buffers)).push(index),
        held_vertices(*final(buffers)) == held_vertices(*old(buffers)),
{
    buffers.indices.push(index);
}

/// `Vec::as_slice` on the field `vertices`: the vertices held, in order.
#[verifier::external_body]
pub(crate) fn vertices_of(buffers: &VertexBuffers<Vertex, u32>) -> (vertices: &[Vertex])
    ensures
        vertices@ == held_vertices(*buffers),
{
    buffers.vertices.as_slice()
}

/// `Vec::as_slice` on the field `indices`: the indices held, in order.
#[verifier::external_body]
pub(crate) fn indices_of(buffers: &VertexBuffers<Vertex, u32>) -> (indices: &[u32])
    ensures
        indices@ == held_indices(*buffers),
{
    buffers.indices.as_slice()
}

/// `VertexBuffers::clone`, which the type derives: buffers that hold copies
/// of the same vertices and the same indices.
#[verifier::external_body]
pub(crate) fn clone_buffers(buffers: &VertexBuffers<Vertex, u32>) -> (copy: VertexBuffers<
    Vertex,
    u32,
>)
    ensures
        held_vertices(copy) == held_vertices(*buffers),
        held_indices(copy) == held_indices(*buffers),
{
    buffers.clone()
}

} // verus!
