//! The vertex record, the adapter that stamps a colour onto tessellated
//! positions, and the byte image of vertices and indices that a graphics
//! device reads.

use vstd::prelude::*;
use crate::scalar::{LinearColor, Point, Scalar};

verus! {

/// Bytes that one vertex occupies in a vertex buffer.
pub const VERTEX_STRIDE: usize = 32;

/// Bytes that one index occupies in an index buffer.
pub const INDEX_STRIDE: usize = 4;

/// Byte offset of the position within a vertex.
pub const POSITION_OFFSET: usize = 0;

/// Byte offset of the texture coordinates within a vertex.
pub const UV_OFFSET: usize = 8;

/// Byte offset of the colour within a vertex.
pub const COLOR_OFFSET: usize = 16;

/// One corner of a triangle as the device reads it: where it is, which point
/// of a texture it shows, and its colour in linear space.
#[derive(Clone, Copy, Debug)]
pub struct Vertex {
    /// `vec2` position.
    pub position: [Scalar; 2],
    /// `vec2` texture coordinates.
    pub uv: [Scalar; 2],
    /// `vec4` colour.
    pub color: [Scalar; 4],
}

/// The four bytes of a 32-bit value, least significant first.
pub open spec fn le_bytes(x: u32) -> Seq<u8> {
    seq![
        (x % 256) as u8,
        ((x / 256) % 256) as u8,
        ((x / 65536) % 256) as u8,
        (x / 16777216) as u8,
    ]
}

/// The value that four bytes spell, least significant first.
pub open spec fn from_le_bytes(b: Seq<u8>) -> int {
    b[0] + 256 * b[1] + 65536 * b[2] + 16777216 * b[3]
}

/// The byte image of a run of vertices: each one's 32 bytes, in order.
pub open spec fn vertices_bytes(vertices: Seq<Vertex>) -> Seq<u8>
    decreases vertices.len(),
{
    if vertices.len() == 0 {
        Seq::empty()
    } else {
        vertices_bytes(vertices.drop_last()) + vertices.last().bytes()
    }
}

/// The byte image of a run of indices: each one's 4 bytes, in order.
pub open spec fn indices_bytes(indices: Seq<u32>) -> Seq<u8>
    decreases indices.len(),
{
    if indices.len() == 0 {
        Seq::empty()
    } else {
        indices_bytes(indices.drop_last()) + le_bytes(indices.last())
    }
}

impl Vertex {
    /// The vertex at `position` that shows the texture point of the same
    /// coordinates.
    pub open spec fn at(position: Point, color: LinearColor) -> Vertex {
        Vertex {
            position: [position.x, position.y],
            uv: [position.x, position.y],
            color: [color.r, color.g, color.b, color.a],
        }
    }

    /// The vertex at `position` of a shape without texture: its texture
    /// coordinates are both positive zero.
    pub open spec fn untextured(position: Point, color: LinearColor) -> Vertex {
        Vertex {
            position: [position.x, position.y],
            uv: [Scalar { bits: 0 }, Scalar { bits: 0 }],
            color: [color.r, color.g, color.b, color.a],
        }
    }

    /// The 32 bytes of a vertex: position, texture coordinates, colour, each
    /// number least significant byte first.
    pub open spec fn bytes(self) -> Seq<u8> {
        le_bytes(self.position@[0].bits) + le_bytes(self.position@[1].bits) + le_bytes(
            self.uv@[0].bits,
        ) + le_bytes(self.uv@[1].bits) + le_bytes(self.color@[0].bits) + le_bytes(
            self.color@[1].bits,
        ) + le_bytes(self.color@[2].bits) + le_bytes(self.color@[3].bits)
    }

    /// A vertex at `position` whose texture coordinates are the position itself.
    pub fn new(position: Point, color: LinearColor) -> (v: Vertex)
        ensures
            v == Vertex::at(position, color),
    {
        Vertex {
            position: [position.x, position.y],
            uv: [position.x, position.y],
            color: [color.r, color.g, color.b, color.a],
        }
    }

    /// Appends the 32 bytes of the vertex to `out`.
    pub fn write_bytes(&self, out: &mut Vec<u8>)
        ensures
            final(out)@ == old(out)@ + self.bytes(),
    {
        push_le_bytes(out, self.position[0].bits);
        push_le_bytes(out, self.position[1].bits);
        push_le_bytes(out, self.uv[0].bits);
        push_le_bytes(out, self.uv[1].bits);
        push_le_bytes(out, self.color[0].bits);
        push_le_bytes(out, self.color[1].bits);
        push_le_bytes(out, self.color[2].bits);
        push_le_bytes(out, self.color[3].bits);
    }
}

/// Appends the four bytes of `x` to `out`, least significant first.
pub fn push_le_bytes(out: &mut Vec<u8>, x: u32)
    ensures
        final(out)@ == old(out)@ + le_bytes(x),
{
    out.push((x % 256) as u8);
    out.push(((x / 256) % 256) as u8);
    out.push(((x / 65536) % 256) as u8);
    out.push((x / 16777216) as u8);
}

/// The byte image of `vertices` for a vertex buffer.
pub fn vertices_to_bytes(vertices: &[Vertex]) -> (bytes: Vec<u8>)
    ensures
        bytes@ == vertices_bytes(vertices@),
{
    let mut bytes: Vec<u8> = Vec::new();
    let mut i: usize = 0;
    while i < vertices.len()
        invariant
            i <= vertices.len(),
            bytes@ == vertices_bytes(vertices@.take(i as int)),
        decreases vertices.len() - i,
    {
        vertices[i].write_bytes(&mut bytes);
        proof {
            assert(vertices@.take(i + 1).drop_last() == vertices@.take(i as int));
        }
        i += 1;
    }
    proof {
        assert(vertices@.take(i as int) == vertices@);
    }
    bytes
}

/// The byte image of `indices` for an index buffer.
pub fn indices_to_bytes(indices: &[u32]) -> (bytes: Vec<u8>)
    ensures
        bytes@ == indices_bytes(indices@),
{
    let mut bytes: Vec<u8> = Vec::new();
    let mut i: usize = 0;
    while i < indices.len()
        invariant
            i <= indices.len(),
            bytes@ == indices_bytes(indices@.take(i as int)),
        decreases indices.len() - i,
    {
        push_le_bytes(&mut bytes, indices[i]);
        proof {
            assert(indices@.take(i + 1).drop_last() == indices@.take(i as int));
        }
        i += 1;
    }
    proof {
        assert(indices@.take(i as int) == indices@);
    }
    bytes
}

/// The byte image of a vertex run is 32 bytes per vertex, and byte `i` of it
/// is byte `i % 32` of vertex `i / 32`.
pub proof fn vertices_bytes_layout(vertices: Seq<Vertex>)
    ensures
        vertices_bytes(vertices).len() == VERTEX_STRIDE * vertices.len(),
        forall|i: int|
            0 <= i < VERTEX_STRIDE * vertices.len() ==> #[trigger] vertices_bytes(vertices)[i]
                == vertices[i / 32].bytes()[i % 32],
    decreases vertices.len(),
{
    if vertices.len() > 0 {
        let front = vertices.drop_last();
        let last = vertices.last();
        vertices_bytes_layout(front);
        assert(last.bytes().len() == 32);
        assert(vertices_bytes(vertices) == vertices_bytes(front) + last.bytes());
        assert forall|i: int| 0 <= i < 32 * vertices.len() implies #[trigger] vertices_bytes(
            vertices,
        )[i] == vertices[i / 32].bytes()[i % 32] by {
            if i < 32 * front.len() {
                assert(vertices_bytes(front)[i] == front[i / 32].bytes()[i % 32]);
                assert(front[i / 32] == vertices[i / 32]);
            } else {
                assert(i / 32 == front.len());
                assert(i % 32 == i - 32 * front.len());
            }
        }
    }
}

/// The byte image of an index run is 4 bytes per index, and byte `i` of it is
/// byte `i % 4` of index `i / 4`.
pub proof fn indices_bytes_layout(indices: Seq<u32>)
    ensures
        indices_bytes(indices).len() == INDEX_STRIDE * indices.len(),
        forall|i: int|
            0 <= i < INDEX_STRIDE * indices.len() ==> #[trigger] indices_bytes(indices)[i]
                == le_bytes(indices[i / 4])[i % 4],
    decreases indices.len(),
{
    if indices.len() > 0 {
        let front = indices.drop_last();
        let last = indices.last();
        indices_bytes_layout(front);
        assert(indices_bytes(indices) == indices_bytes(front) + le_bytes(last));
        assert forall|i: int| 0 <= i < 4 * indices.len() implies #[trigger] indices_bytes(
            indices,
        )[i] == le_bytes(indices[i / 4])[i % 4] by {
            if i < 4 * front.len() {
                assert(indices_bytes(front)[i] == le_bytes(front[i / 4])[i % 4]);
                assert(front[i / 4] == indices[i / 4]);
            } else {
                assert(i / 4 == front.len());
                assert(i % 4 == i - 4 * front.len());
            }
        }
    }
}

/// Four bytes written least significant first spell the value they came from.
pub proof fn le_bytes_round_trip(x: u32)
    ensures
        le_bytes(x).len() == 4,
        from_le_bytes(le_bytes(x)) == x,
{
}

/// Within the 32 bytes of a vertex the position starts at byte 0, the texture
/// coordinates at byte 8 and the colour at byte 16.
pub proof fn vertex_bytes_layout(v: Vertex)
    ensures
        v.bytes().len() == VERTEX_STRIDE,
        v.bytes().subrange(0, 8) == le_bytes(v.position@[0].bits) + le_bytes(v.position@[1].bits),
        v.bytes().subrange(8, 16) == le_bytes(v.uv@[0].bits) + le_bytes(v.uv@[1].bits),
        v.bytes().subrange(16, 32) == le_bytes(v.color@[0].bits) + le_bytes(v.color@[1].bits)
            + le_bytes(v.color@[2].bits) + le_bytes(v.color@[3].bits),
{
}

/// The type of one attribute of a vertex.
#[derive(Clone, Copy, Debug, PartialEq, Eq, Structural)]
pub enum VertexFormat {
    /// Two single-precision numbers.
    Float32x2,
    /// Four single-precision numbers.
    Float32x4,
}

impl VertexFormat {
    /// Bytes that a value of the format occupies.
    pub open spec fn size_spec(self) -> u64 {
        match self {
            VertexFormat::Float32x2 => 8,
            VertexFormat::Float32x4 => 16,
        }
    }

    #[verifier::when_used_as_spec(size_spec)]
    pub fn size(self) -> (bytes: u64)
        ensures
            bytes == self.size_spec(),
    {
        match self {
            VertexFormat::Float32x2 => 8,
            VertexFormat::Float32x4 => 16,
        }
    }
}

/// Whether a buffer is advanced once for each vertex or once for each instance.
#[derive(Clone, Copy, Debug, PartialEq, Eq, Structural)]
pub enum VertexStepMode {
    Vertex,
    Instance,
}

/// Where one input of the vertex shader lies within a vertex.
#[derive(Clone, Copy, Debug, PartialEq, Eq, Structural)]
pub struct VertexAttribute {
    pub format: VertexFormat,
    /// Byte offset from the start of the vertex.
    pub offset: u64,
    /// The input of the shader that reads the attribute.
    pub shader_location: u32,
}

/// How a vertex buffer is read: the distance from one vertex to the next,
/// and the attributes within each.
#[derive(Clone, Copy, Debug)]
pub struct VertexBufferLayout {
    /// Bytes from the start of one vertex to the start of the next.
    pub array_stride: u64,
    pub step_mode: VertexStepMode,
    pub attributes: [VertexAttribute; 3],
}

impl Vertex {
    /// The attributes of a vertex: position, texture coordinates, colour,
    /// read by the shader inputs 0, 1 and 2.
    pub open spec fn attributes() -> Seq<VertexAttribute> {
        seq![
            VertexAttribute { format: VertexFormat::Float32x2, offset: 0, shader_location: 0 },
            VertexAttribute { format: VertexFormat::Float32x2, offset: 8, shader_location: 1 },
            VertexAttribute { format: VertexFormat::Float32x4, offset: 16, shader_location: 2 },
        ]
    }

    /// How a buffer of vertices is read.
    pub fn layout() -> (layout: VertexBufferLayout)
        ensures
            layout.array_stride == VERTEX_STRIDE,
            layout.step_mode == VertexStepMode::Vertex,
            layout.attributes@ == Vertex::attributes(),
    {
        let attributes: [VertexAttribute; 3] = [
            VertexAttribute { format: VertexFormat::Float32x2, offset: 0, shader_location: 0 },
            VertexAttribute { format: VertexFormat::Float32x2, offset: 8, shader_location: 1 },
            VertexAttribute { format: VertexFormat::Float32x4, offset: 16, shader_location: 2 },
        ];
        VertexBufferLayout { array_stride: 32, step_mode: VertexStepMode::Vertex, attributes }
    }

    /// The bytes of what the attribute of shader input `location` reads.
    pub open spec fn attribute_bytes(self, location: int) -> Seq<u8> {
        if location == 0 {
            le_bytes(self.position@[0].bits) + le_bytes(self.position@[1].bits)
        } else if location == 1 {
            le_bytes(self.uv@[0].bits) + le_bytes(self.uv@[1].bits)
        } else {
            le_bytes(self.color@[0].bits) + le_bytes(self.color@[1].bits) + le_bytes(
                self.color@[2].bits,
            ) + le_bytes(self.color@[3].bits)
        }
    }
}

/// The layout and the byte image agree: the attributes follow one another
/// without gap from byte 0 to the stride, each is read by the shader input
/// of its place, and the bytes at an attribute's offset are those of the
/// numbers it stands for.
pub proof fn layout_describes_bytes(v: Vertex, location: int)
    requires
        0 <= location < 3,
    ensures
        ({
            let attributes = Vertex::attributes();
            let attribute = attributes[location];
            &&& attributes.len() == 3
            &&& attribute.shader_location == location
            &&& attributes[0].offset == 0
            &&& location > 0 ==> attribute.offset == attributes[location - 1].offset
                + attributes[location - 1].format.size_spec()
            &&& attributes[2].offset + attributes[2].format.size_spec() == VERTEX_STRIDE
            &&& v.bytes().len() == VERTEX_STRIDE
            &&& v.bytes().subrange(
                attribute.offset as int,
                attribute.offset + attribute.format.size_spec(),
            ) == v.attribute_bytes(location)
        }),
{
    vertex_bytes_layout(v);
}

/// Stamps one colour onto every vertex that it makes.
#[derive(Clone, Copy, Debug)]
pub struct VertexBuilder {
    pub color: LinearColor,
}

impl VertexBuilder {
    pub fn new(color: LinearColor) -> (vb: VertexBuilder)
        ensures
            vb.color == color,
    {
        VertexBuilder { color }
    }

    /// The vertex of a triangle given point by point: the texture coordinates
    /// are the position.
    pub fn new_vertex(self, position: Point) -> (v: Vertex)
        ensures
            v == Vertex::at(position, self.color),
    {
        Vertex::new(position, self.color)
    }

    /// The vertex for a position that a stroke tessellation produced: the
    /// texture coordinates are zero.
    pub fn stroke_vertex(self, position: Point) -> (v: Vertex)
        ensures
            v == Vertex::untextured(position, self.color),
    {
        let zero = Scalar { bits: 0 };
        Vertex {
            position: [position.x, position.y],
            uv: [zero, zero],
            color: [self.color.r, self.color.g, self.color.b, self.color.a],
        }
    }

    /// The vertex for a position that a fill tessellation produced: the
    /// texture coordinates are zero.
    pub fn fill_vertex(self, position: Point) -> (v: Vertex)
        ensures
            v == Vertex::untextured(position, self.color),
    {
        let zero = Scalar { bits: 0 };
        Vertex {
            position: [position.x, position.y],
            uv: [zero, zero],
            color: [self.color.r, self.color.g, self.color.b, self.color.a],
        }
    }
}

} // verus!
