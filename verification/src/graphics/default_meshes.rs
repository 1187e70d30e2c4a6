use crate::graphics::mesh::Vertex;
use vstd::prelude::*;

verus! {

/// The bits of the single-precision number 0.
pub const ZERO: u32 = 0;

/// The bits of the single-precision number 1.
pub const ONE: u32 = 0x3F80_0000;

/// The bits of the single-precision number 0.5.
pub const HALF: u32 = 0x3F00_0000;

/// The bits of the single-precision number -0.5.
pub const MINUS_HALF: u32 = 0xBF00_0000;

const FRONT_BOTTOM_LEFT: u32 = 0;

const FRONT_BOTTOM_RIGHT: u32 = 1;

const FRONT_TOP_LEFT: u32 = 2;

const FRONT_TOP_RIGHT: u32 = 3;

const BACK_BOTTOM_LEFT: u32 = 4;

const BACK_BOTTOM_RIGHT: u32 = 5;

const BACK_TOP_LEFT: u32 = 6;

const BACK_TOP_RIGHT: u32 = 7;

/// Whether a coordinate lies half a unit from the middle.
pub open spec fn on_the_edge(coordinate: u32) -> bool {
    coordinate == HALF || coordinate == MINUS_HALF
}

/// Whether every index names one of `count` vertices.
pub open spec fn indices_name_vertices(indices: Seq<u32>, count: nat) -> bool {
    forall|i: int| 0 <= i < indices.len() ==> #[trigger] indices[i] < count
}

/// A vertex at (`x`, `y`, `z`) that faces the viewer and samples the
/// texture at (`u`, `v`).
fn corner(x: u32, y: u32, z: u32, u: u32, v: u32) -> (vertex: Vertex)
    ensures
        vertex.position@ == seq![x, y, z],
        vertex.normal@ == seq![ZERO, ZERO, ONE],
        vertex.texture_coordinates@ == seq![u, v],
{
    let vertex = Vertex { position: [x, y, z], normal: [0, 0, ONE], texture_coordinates: [u, v] };
    vertex
}

/// The vertices of a square with width and height of 1 around the middle:
/// bottom left, bottom right, top left, top right. The whole texture
/// covers the square, its top at the top.
pub fn quad_mesh_vertices() -> (vertices: [Vertex; 4])
    ensures
        forall|i: int|
            0 <= i < 4 ==> {
                &&& on_the_edge((#[trigger] vertices[i]).position[0])
                &&& on_the_edge(vertices[i].position[1])
                &&& vertices[i].position[2] == ZERO
                &&& vertices[i].normal@ == seq![ZERO, ZERO, ONE]
            },
{
    [
        // Bottom Left
        corner(MINUS_HALF, MINUS_HALF, ZERO, ZERO, ONE),
        // Bottom Right
        corner(HALF, MINUS_HALF, ZERO, ONE, ONE),
        // Top Left
        corner(MINUS_HALF, HALF, ZERO, ZERO, ZERO),
        // Top Right
        corner(HALF, HALF, ZERO, ONE, ZERO),
    ]
}

/// The two triangles of the square, each named counter-clockwise.
pub fn quad_mesh_indices() -> (indices: [u32; 6])
    ensures
        indices_name_vertices(indices@, 4),
{
    [
        FRONT_BOTTOM_LEFT,
        FRONT_BOTTOM_RIGHT,
        FRONT_TOP_RIGHT,
        FRONT_BOTTOM_LEFT,
        FRONT_TOP_RIGHT,
        FRONT_TOP_LEFT,
    ]
}

/// The corners of a cube with edges of 1 around the middle: the four of
/// the front, then the four of the back.
pub fn cube_mesh_vertices() -> (vertices: [Vertex; 8])
    ensures
        forall|i: int|
            0 <= i < 8 ==> {
                &&& on_the_edge((#[trigger] vertices[i]).position[0])
                &&& on_the_edge(vertices[i].position[1])
                &&& on_the_edge(vertices[i].position[2])
                &&& vertices[i].normal@ == seq![ZERO, ZERO, ONE]
            },
        forall|i: int| 0 <= i < 4 ==> (#[trigger] vertices[i]).position[2] == HALF,
        forall|i: int| 4 <= i < 8 ==> (#[trigger] vertices[i]).position[2] == MINUS_HALF,
{
    [
        // Front Bottom Left
        corner(MINUS_HALF, MINUS_HALF, HALF, ZERO, ONE),
        // Front Bottom Right
        corner(HALF, MINUS_HALF, HALF, ONE, ONE),
        // Front Top Left
        corner(MINUS_HALF, HALF, HALF, ZERO, ZERO),
        // Front Top Right
        corner(HALF, HALF, HALF, ONE, ZERO),
        // Back Bottom Left
        corner(MINUS_HALF, MINUS_HALF, MINUS_HALF, ZERO, ZERO),
        // Back Bottom Right
        corner(HALF, MINUS_HALF, MINUS_HALF, ZERO, ZERO),
        // Back Top Left
        corner(MINUS_HALF, HALF, MINUS_HALF, ZERO, ONE),
        // Back Top Right
        corner(HALF, HALF, MINUS_HALF, ZERO, ONE),
    ]
}

/// The triangles of four faces of the cube: front, back, top and left.
pub fn cube_mesh_indices() -> (indices: [u32; 24])
    ensures
        indices_name_vertices(indices@, 8),
{
    [
        // front face
        FRONT_BOTTOM_LEFT,
        FRONT_BOTTOM_RIGHT,
        FRONT_TOP_RIGHT,
        FRONT_BOTTOM_LEFT,
        FRONT_TOP_RIGHT,
        FRONT_TOP_LEFT,
        // back face
        BACK_TOP_RIGHT,
        BACK_BOTTOM_RIGHT,
        BACK_BOTTOM_LEFT,
        BACK_TOP_LEFT,
        BACK_TOP_RIGHT,
        BACK_BOTTOM_LEFT,
        // top face
        FRONT_TOP_LEFT,
        FRONT_TOP_RIGHT,
        BACK_TOP_RIGHT,
        FRONT_TOP_LEFT,
        BACK_TOP_RIGHT,
        BACK_TOP_LEFT,
        // left face
        BACK_BOTTOM_LEFT,
        FRONT_BOTTOM_LEFT,
        FRONT_TOP_LEFT,
        BACK_BOTTOM_LEFT,
        FRONT_TOP_LEFT,
        BACK_TOP_LEFT,
    ]
}

} // verus!
