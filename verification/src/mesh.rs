//! A mesh as the renderer holds it: how many vertices and indices its two
//! device buffers have room for, how many they hold, and an identity that
//! changes whenever a buffer is replaced by a larger one.
//!
//! The buffers themselves live with the caller. Every operation hands back
//! what has to be done to them: allocate a buffer with given contents, or
//! write bytes into the one that exists.

use vstd::prelude::*;
use crate::builder::MeshData;
use crate::vertex::{
    indices_bytes, indices_to_bytes, vertices_bytes, vertices_to_bytes, Vertex, INDEX_STRIDE,
    VERTEX_STRIDE,
};

verus! {

/// The identity that follows `id`: one more, and zero after the greatest.
pub open spec fn following(id: usize) -> usize {
    if id == usize::MAX {
        0
    } else {
        (id + 1) as usize
    }
}

/// The source of mesh identities: a counter that starts at zero and hands
/// out each value once until it wraps around.
///
/// One counter serves all meshes of a process. Whoever mints holds it
/// exclusively, so no two meshes are given the same identity at once.
#[derive(Debug)]
pub struct MeshIds {
    next: usize,
}

impl View for MeshIds {
    type V = usize;

    /// The identity that is handed out next.
    closed spec fn view(&self) -> usize {
        self.next
    }
}

impl MeshIds {
    pub fn new() -> (ids: MeshIds)
        ensures
            ids@ == 0,
    {
        MeshIds { next: 0 }
    }

    /// Hands out the next identity.
    pub fn mint(&mut self) -> (id: usize)
        ensures
            id == old(self)@,
            final(self)@ == following(old(self)@),
    {
        let id = self.next;
        self.next = if id == usize::MAX {
            0
        } else {
            id + 1
        };
        id
    }

    /// The identity that is handed out next.
    pub fn peek(&self) -> (id: usize)
        ensures
            id == self@,
    {
        self.next
    }
}

/// What a device buffer is used for. Either kind can be written to after
/// it was made.
#[derive(Clone, Copy, Debug, PartialEq, Eq, Structural)]
pub enum BufferUsage {
    Vertex,
    Index,
}

/// Something to be done to a device buffer of a mesh.
#[derive(Debug)]
pub enum Upload {
    /// Make a buffer that holds exactly `contents`, and let it take the
    /// place of the mesh's buffer of that usage, if there is one.
    Allocate { usage: BufferUsage, contents: Vec<u8> },
    /// Write `data` into the mesh's buffer of that usage, from byte `offset` on.
    Write { usage: BufferUsage, offset: u64, data: Vec<u8> },
}

/// An [`Upload`] with its bytes as a sequence.
pub enum UploadView {
    Allocate { usage: BufferUsage, contents: Seq<u8> },
    Write { usage: BufferUsage, offset: u64, data: Seq<u8> },
}

impl View for Upload {
    type V = UploadView;

    open spec fn view(&self) -> UploadView {
        match *self {
            Upload::Allocate { usage, contents } => UploadView::Allocate {
                usage,
                contents: contents@,
            },
            Upload::Write { usage, offset, data } => UploadView::Write { usage, offset, data: data@ },
        }
    }
}

impl UploadView {
    /// The bytes that a buffer holds once the upload is done, where it
    /// held `buffer` before: an allocation replaces them all, a write
    /// replaces those it covers.
    pub open spec fn applied(self, buffer: Seq<u8>) -> Seq<u8> {
        match self {
            UploadView::Allocate { contents, .. } => contents,
            UploadView::Write { offset, data, .. } => Seq::new(
                buffer.len(),
                |i: int|
                    if offset <= i < offset + data.len() {
                        data[i - offset]
                    } else {
                        buffer[i]
                    },
            ),
        }
    }
}

/// The numbers that describe a mesh.
pub struct MeshState {
    /// Vertices that the vertex buffer has room for.
    pub vertex_capacity: nat,
    /// Indices that the index buffer has room for.
    pub index_capacity: nat,
    /// Vertices that the vertex buffer holds.
    pub vertex_count: nat,
    /// Indices that the index buffer holds.
    pub index_count: nat,
    /// Changes whenever one of the two buffers is replaced.
    pub id: usize,
}

impl MeshState {
    /// No buffer is said to hold more than it has room for.
    pub open spec fn wf(self) -> bool {
        &&& self.vertex_count <= self.vertex_capacity
        &&& self.index_count <= self.index_capacity
    }

    /// A mesh made from `vertices` vertices and `indices` indices with the
    /// identity `id`: both buffers are exactly as large as what they hold.
    pub open spec fn created(vertices: nat, indices: nat, id: usize) -> MeshState {
        MeshState {
            vertex_capacity: vertices,
            index_capacity: indices,
            vertex_count: vertices,
            index_count: indices,
            id,
        }
    }

    /// Whether `count` vertices need a larger vertex buffer.
    pub open spec fn vertices_outgrow(self, count: nat) -> bool {
        count > self.vertex_capacity
    }

    /// Whether `count` indices need a larger index buffer.
    pub open spec fn indices_outgrow(self, count: nat) -> bool {
        count > self.index_capacity
    }

    /// The mesh after its vertices were set to `count` of them, where `next`
    /// is the identity that a counter would hand out: a buffer that is
    /// large enough stays, with its capacity and the identity; one that is
    /// too small is replaced by one of exactly `count`, under a new identity.
    pub open spec fn with_vertices(self, count: nat, next: usize) -> MeshState {
        if self.vertices_outgrow(count) {
            MeshState { vertex_count: count, vertex_capacity: count, id: next, ..self }
        } else {
            MeshState { vertex_count: count, ..self }
        }
    }

    /// The mesh after its indices were set to `count` of them; as
    /// [`MeshState::with_vertices`].
    pub open spec fn with_indices(self, count: nat, next: usize) -> MeshState {
        if self.indices_outgrow(count) {
            MeshState { index_count: count, index_capacity: count, id: next, ..self }
        } else {
            MeshState { index_count: count, ..self }
        }
    }
}

/// Mesh data stored on the device as a vertex and an index buffer.
#[derive(Debug)]
pub struct Mesh {
    verts_capacity: usize,
    inds_capacity: usize,
    vertex_count: usize,
    index_count: usize,
    id: usize,
}

impl View for Mesh {
    type V = MeshState;

    closed spec fn view(&self) -> MeshState {
        MeshState {
            vertex_capacity: self.verts_capacity as nat,
            index_capacity: self.inds_capacity as nat,
            vertex_count: self.vertex_count as nat,
            index_count: self.index_count as nat,
            id: self.id,
        }
    }
}

impl Mesh {
    pub open spec fn wf(&self) -> bool {
        self@.wf()
    }

    /// Create a new mesh from a list of vertices and indices.
    ///
    /// Returns the mesh with the allocation of its vertex buffer and that
    /// of its index buffer, in this order.
    pub fn new(ids: &mut MeshIds, vertices: &[Vertex], indices: &[u32]) -> (made: (
        Mesh,
        Upload,
        Upload,
    ))
        ensures
            made.0.wf(),
            made.0@ == MeshState::created(vertices@.len(), indices@.len(), old(ids)@),
            made.1@ == (UploadView::Allocate {
                usage: BufferUsage::Vertex,
                contents: vertices_bytes(vertices@),
            }),
            made.2@ == (UploadView::Allocate {
                usage: BufferUsage::Index,
                contents: indices_bytes(indices@),
            }),
            final(ids)@ == following(old(ids)@),
    {
        let verts = Self::create_verts(vertices);
        let inds = Self::create_inds(indices);
        let mesh = Mesh {
            verts_capacity: vertices.len(),
            inds_capacity: indices.len(),
            vertex_count: vertices.len(),
            index_count: indices.len(),
            id: ids.mint(),
        };
        (mesh, verts, inds)
    }

    /// Create a new mesh from [`MeshData`].
    pub fn from_data(ids: &mut MeshIds, data: MeshData) -> (made: (Mesh, Upload, Upload))
        ensures
            made.0.wf(),
            made.0@ == MeshState::created(
                data@.vertices.len(),
                data@.indices.len(),
                old(ids)@,
            ),
            made.1@ == (UploadView::Allocate {
                usage: BufferUsage::Vertex,
                contents: vertices_bytes(data@.vertices),
            }),
            made.2@ == (UploadView::Allocate {
                usage: BufferUsage::Index,
                contents: indices_bytes(data@.indices),
            }),
            final(ids)@ == following(old(ids)@),
    {
        Self::new(ids, data.vertices, data.indices)
    }

    /// Update the vertices of the mesh.
    ///
    /// Where the vertex buffer has room for them, they are written over its
    /// beginning, and capacity and identity stay. Where it has not, a buffer
    /// of exactly their size replaces it, and the mesh gets a new identity.
    pub fn set_vertices(&mut self, ids: &mut MeshIds, vertices: &[Vertex]) -> (upload: Upload)
        requires
            old(self).wf(),
        ensures
            final(self).wf(),
            final(self)@ == old(self)@.with_vertices(vertices@.len(), old(ids)@),
            old(self)@.vertices_outgrow(vertices@.len()) ==> {
                &&& upload@ == (UploadView::Allocate {
                    usage: BufferUsage::Vertex,
                    contents: vertices_bytes(vertices@),
                })
                &&& final(ids)@ == following(old(ids)@)
            },
            !old(self)@.vertices_outgrow(vertices@.len()) ==> {
                &&& upload@ == (UploadView::Write {
                    usage: BufferUsage::Vertex,
                    offset: 0,
                    data: vertices_bytes(vertices@),
                })
                &&& final(ids)@ == old(ids)@
            },
    {
        self.vertex_count = vertices.len();
        if vertices.len() > self.verts_capacity {
            self.verts_capacity = vertices.len();
            let upload = Self::create_verts(vertices);
            self.update_id(ids);
            upload
        } else {
            Upload::Write { usage: BufferUsage::Vertex, offset: 0, data: vertices_to_bytes(vertices) }
        }
    }

    /// Update the indices of the mesh.
    ///
    /// Where the index buffer has room for them, they are written over its
    /// beginning, and capacity and identity stay. Where it has not, a buffer
    /// of exactly their size replaces it, and the mesh gets a new identity.
    pub fn set_indices(&mut self, ids: &mut MeshIds, indices: &[u32]) -> (upload: Upload)
        requires
            old(self).wf(),
        ensures
            final(self).wf(),
            final(self)@ == old(self)@.with_indices(indices@.len(), old(ids)@),
            old(self)@.indices_outgrow(indices@.len()) ==> {
                &&& upload@ == (UploadView::Allocate {
                    usage: BufferUsage::Index,
                    contents: indices_bytes(indices@),
                })
                &&& final(ids)@ == following(old(ids)@)
            },
            !old(self)@.indices_outgrow(indices@.len()) ==> {
                &&& upload@ == (UploadView::Write {
                    usage: BufferUsage::Index,
                    offset: 0,
                    data: indices_bytes(indices@),
                })
                &&& final(ids)@ == old(ids)@
            },
    {
        self.index_count = indices.len();
        if indices.len() > self.inds_capacity {
            self.inds_capacity = indices.len();
            let upload = Self::create_inds(indices);
            self.update_id(ids);
            upload
        } else {
            Upload::Write { usage: BufferUsage::Index, offset: 0, data: indices_to_bytes(indices) }
        }
    }

    /// Gives the mesh the next identity of `ids`.
    pub fn update_id(&mut self, ids: &mut MeshIds)
        ensures
            final(self)@ == (MeshState { id: old(ids)@, ..old(self)@ }),
            final(ids)@ == following(old(ids)@),
    {
        self.id = ids.mint();
    }

    /// Vertices that the vertex buffer holds.
    pub fn vertex_count(&self) -> (count: usize)
        ensures
            count == self@.vertex_count,
    {
        self.vertex_count
    }

    /// Indices that the index buffer holds.
    pub fn index_count(&self) -> (count: usize)
        ensures
            count == self@.index_count,
    {
        self.index_count
    }

    /// Vertices that the vertex buffer has room for.
    pub fn vertex_capacity(&self) -> (capacity: usize)
        ensures
            capacity == self@.vertex_capacity,
    {
        self.verts_capacity
    }

    /// Indices that the index buffer has room for.
    pub fn index_capacity(&self) -> (capacity: usize)
        ensures
            capacity == self@.index_capacity,
    {
        self.inds_capacity
    }

    /// The identity of the mesh: it differs from what it was whenever one
    /// of the two buffers was replaced.
    pub fn id(&self) -> (id: usize)
        ensures
            id == self@.id,
    {
        self.id
    }

    fn create_verts(vertices: &[Vertex]) -> (upload: Upload)
        ensures
            upload@ == (UploadView::Allocate {
                usage: BufferUsage::Vertex,
                contents: vertices_bytes(vertices@),
            }),
    {
        Upload::Allocate { usage: BufferUsage::Vertex, contents: vertices_to_bytes(vertices) }
    }

    fn create_inds(indices: &[u32]) -> (upload: Upload)
        ensures
            upload@ == (UploadView::Allocate {
                usage: BufferUsage::Index,
                contents: indices_bytes(indices@),
            }),
    {
        Upload::Allocate { usage: BufferUsage::Index, contents: indices_to_bytes(indices) }
    }
}

/// Vertices that fit into the buffer leave its capacity and the identity of
/// the mesh as they were, and are counted.
pub proof fn vertices_that_fit_keep_the_buffer(state: MeshState, count: nat, next: usize)
    requires
        state.wf(),
        count <= state.vertex_capacity,
    ensures
        state.with_vertices(count, next).wf(),
        state.with_vertices(count, next).vertex_capacity == state.vertex_capacity,
        state.with_vertices(count, next).id == state.id,
        state.with_vertices(count, next).vertex_count == count,
{
}

/// Vertices that outgrow the buffer make their number its capacity. Where
/// the identity of the mesh came from the counter that now hands out `next`
/// and the counter has not wrapped around since, the new identity is
/// greater than the old one.
pub proof fn vertices_that_outgrow_renew_the_buffer(state: MeshState, count: nat, next: usize)
    requires
        state.wf(),
        count > state.vertex_capacity,
        state.id < next,
    ensures
        state.with_vertices(count, next).wf(),
        state.with_vertices(count, next).vertex_capacity == count,
        state.with_vertices(count, next).vertex_count == count,
        state.with_vertices(count, next).id != state.id,
        state.with_vertices(count, next).id > state.id,
{
}

/// Indices that fit into the buffer leave its capacity and the identity of
/// the mesh as they were, and are counted.
pub proof fn indices_that_fit_keep_the_buffer(state: MeshState, count: nat, next: usize)
    requires
        state.wf(),
        count <= state.index_capacity,
    ensures
        state.with_indices(count, next).wf(),
        state.with_indices(count, next).index_capacity == state.index_capacity,
        state.with_indices(count, next).id == state.id,
        state.with_indices(count, next).index_count == count,
{
}

/// Indices that outgrow the buffer make their number its capacity. Where
/// the identity of the mesh came from the counter that now hands out `next`
/// and the counter has not wrapped around since, the new identity is
/// greater than the old one.
pub proof fn indices_that_outgrow_renew_the_buffer(state: MeshState, count: nat, next: usize)
    requires
        state.wf(),
        count > state.index_capacity,
        state.id < next,
    ensures
        state.with_indices(count, next).wf(),
        state.with_indices(count, next).index_capacity == count,
        state.with_indices(count, next).index_count == count,
        state.with_indices(count, next).id != state.id,
        state.with_indices(count, next).id > state.id,
{
}

/// A buffer never shrinks: whatever is set, the capacities afterwards are at
/// least what they were, and at least what is held.
pub proof fn capacities_only_grow(state: MeshState, count: nat, next: usize)
    requires
        state.wf(),
    ensures
        state.with_vertices(count, next).vertex_capacity >= state.vertex_capacity,
        state.with_vertices(count, next).index_capacity == state.index_capacity,
        state.with_indices(count, next).index_capacity >= state.index_capacity,
        state.with_indices(count, next).vertex_capacity == state.vertex_capacity,
        state.with_vertices(count, next).wf(),
        state.with_indices(count, next).wf(),
{
}

/// A counter that has not reached its greatest value hands out an identity
/// below the one that it hands out next: identities rise.
pub proof fn identities_rise(next: usize)
    requires
        next < usize::MAX,
    ensures
        next < following(next),
{
}

/// A vertex buffer that is as large as the mesh says holds the bytes of the
/// vertices at its beginning once the upload for them is done, and is then
/// as large as the mesh says afterwards.
pub proof fn upload_puts_vertices_in_front(
    state: MeshState,
    next: usize,
    vertices: Seq<Vertex>,
    buffer: Seq<u8>,
)
    requires
        state.wf(),
        buffer.len() == VERTEX_STRIDE * state.vertex_capacity,
    ensures
        ({
            let after = state.with_vertices(vertices.len(), next);
            let upload = if state.vertices_outgrow(vertices.len()) {
                UploadView::Allocate {
                    usage: BufferUsage::Vertex,
                    contents: vertices_bytes(vertices),
                }
            } else {
                UploadView::Write {
                    usage: BufferUsage::Vertex,
                    offset: 0,
                    data: vertices_bytes(vertices),
                }
            };
            &&& upload.applied(buffer).len() == VERTEX_STRIDE * after.vertex_capacity
            &&& vertices_bytes(vertices).is_prefix_of(upload.applied(buffer))
        }),
{
    crate::vertex::vertices_bytes_layout(vertices);
}

/// An index buffer that is as large as the mesh says holds the bytes of the
/// indices at its beginning once the upload for them is done, and is then
/// as large as the mesh says afterwards.
pub proof fn upload_puts_indices_in_front(
    state: MeshState,
    next: usize,
    indices: Seq<u32>,
    buffer: Seq<u8>,
)
    requires
        state.wf(),
        buffer.len() == INDEX_STRIDE * state.index_capacity,
    ensures
        ({
            let after = state.with_indices(indices.len(), next);
            let upload = if state.indices_outgrow(indices.len()) {
                UploadView::Allocate { usage: BufferUsage::Index, contents: indices_bytes(indices) }
            } else {
                UploadView::Write {
                    usage: BufferUsage::Index,
                    offset: 0,
                    data: indices_bytes(indices),
                }
            };
            &&& upload.applied(buffer).len() == INDEX_STRIDE * after.index_capacity
            &&& indices_bytes(indices).is_prefix_of(upload.applied(buffer))
        }),
{
    crate::vertex::indices_bytes_layout(indices);
}

} // verus!
