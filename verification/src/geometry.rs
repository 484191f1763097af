//! The quad on which every tile is drawn, and how its vertices lie in memory.

use vstd::prelude::*;

verus! {

/// The number of vertices of the quad: two triangles.
pub const VERTEX_COUNT: u32 = 6;

/// The number of bytes that one vertex takes in the vertex buffer.
pub const VERTEX_STRIDE: u64 = 8;

/// A vertex of the quad: a position and a texture coordinate, each of four bytes that
/// the vertex stage reads as fractions of 255.
#[derive(Clone, Copy, Debug, PartialEq, Eq)]
pub struct GeometryData {
    pub position: [u8; 4],
    pub tex_coord: [u8; 4],
}

/// Where one attribute of a vertex lies: at which byte of the vertex, and under which
/// location the vertex stage reads it. Every attribute is four normalized bytes.
#[derive(Clone, Copy, Debug, PartialEq, Eq, Structural)]
pub struct AttributeLayout {
    pub offset: u64,
    pub shader_location: u32,
}

/// How the vertex buffer is laid out: the distance in bytes from one vertex to the
/// next, and the position and texture coordinate attributes.
#[derive(Clone, Copy, Debug, PartialEq, Eq, Structural)]
pub struct VertexLayout {
    pub array_stride: u64,
    pub position: AttributeLayout,
    pub tex_coord: AttributeLayout,
}

/// The corner of the unit square at which vertex `index` of the quad lies: the first
/// triangle is left top, right top, left bottom; the second is left bottom, right top,
/// right bottom.
pub open spec fn quad_corner(index: int) -> (int, int) {
    if index == 0 {
        (0, 0)
    } else if index == 1 || index == 4 {
        (255, 0)
    } else if index == 2 || index == 3 {
        (0, 255)
    } else {
        (255, 255)
    }
}

/// Whether `vertex` is vertex `index` of the quad: it lies at that corner, and its
/// texture coordinate is the corner's, with the vertical axis turned over.
pub open spec fn is_quad_vertex(vertex: GeometryData, index: int) -> bool {
    let (x, y) = quad_corner(index);
    &&& vertex.position[0] == x
    &&& vertex.position[1] == y
    &&& vertex.position[2] == 0
    &&& vertex.position[3] == 0
    &&& vertex.tex_coord[0] == x
    &&& vertex.tex_coord[1] == 255 - y
    &&& vertex.tex_coord[2] == 0
    &&& vertex.tex_coord[3] == 0
}

fn quad_vertex(x: u8, y: u8) -> (vertex: GeometryData)
    ensures
        vertex.position[0] == x,
        vertex.position[1] == y,
        vertex.position[2] == 0,
        vertex.position[3] == 0,
        vertex.tex_coord[0] == x,
        vertex.tex_coord[1] == 255 - y,
        vertex.tex_coord[2] == 0,
        vertex.tex_coord[3] == 0,
{
    GeometryData { position: [x, y, 0, 0], tex_coord: [x, 255 - y, 0, 0] }
}

/// The six vertices of the quad, in drawing order.
pub fn vertices() -> (quad: [GeometryData; 6])
    ensures
        forall|index: int| 0 <= index < VERTEX_COUNT ==> is_quad_vertex(#[trigger] quad[index], index),
{
    [
        quad_vertex(0, 0),
        quad_vertex(255, 0),
        quad_vertex(0, 255),
        quad_vertex(0, 255),
        quad_vertex(255, 0),
        quad_vertex(255, 255),
    ]
}

impl GeometryData {
    /// The layout of the vertex buffer: vertices follow one another without gaps, the
    /// position comes first and is read under location 0, the texture coordinate
    /// follows it and is read under location 1.
    pub fn desc() -> (layout: VertexLayout)
        ensures
            layout.array_stride == VERTEX_STRIDE,
            layout.position == (AttributeLayout { offset: 0, shader_location: 0 }),
            layout.tex_coord == (AttributeLayout { offset: 4, shader_location: 1 }),
    {
        VertexLayout {
            array_stride: VERTEX_STRIDE,
            position: AttributeLayout { offset: 0, shader_location: 0 },
            tex_coord: AttributeLayout { offset: 4, shader_location: 1 },
        }
    }
}

} // verus!
