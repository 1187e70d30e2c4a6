use crate::graphics::buffer::{cast_words, native_bytes};
use crate::util::repository::ResourceId;
use vstd::prelude::*;

verus! {

/// Foundational building block for a mesh.
///
/// Every number is a single-precision number, held as its bit pattern.
#[derive(Clone, Copy, Debug)]
pub struct Vertex {
    /// Position in 3d space.
    pub position: [u32; 3],
    /// Vector of the direction this vertex points to (for lighting and etc.)
    pub normal: [u32; 3],
    /// Used to sample the appropriate pixel(s) from a texture during rendering.
    pub texture_coordinates: [u32; 2],
}

/// Data type to reference a particular [`Vertex`] in a list of vertices.
pub type Index = u32;

/// The number of 32-bit words of one vertex in a vertex buffer.
pub const VERTEX_WORDS: usize = 8;

/// The number of bytes from one vertex to the next in a vertex buffer.
pub const VERTEX_STRIDE: usize = 32;

/// The number of bytes of one index in an index buffer.
pub const INDEX_SIZE: usize = 4;

/// Contains data used to construct a mesh.
pub struct MeshData<'a> {
    /// What vertices make up the mesh.
    pub vertices: &'a [Vertex],
    /// Order in which to traverse the vertices.
    pub indices: &'a [Index],
}

/// The word at place `place` (0 to 7) of a vertex: position, then normal,
/// then texture coordinate, with nothing in between.
pub open spec fn vertex_word(vertex: Vertex, place: int) -> u32 {
    if place < 3 {
        vertex.position[place]
    } else if place < 6 {
        vertex.normal[place - 3]
    } else {
        vertex.texture_coordinates[place - 6]
    }
}

/// The words of a vertex buffer that holds `vertices`.
pub open spec fn vertex_words(vertices: Seq<Vertex>) -> Seq<u32> {
    Seq::new(8 * vertices.len(), |i: int| vertex_word(vertices[i / 8], i % 8))
}

/// The words of a vertex buffer for `vertices`, tightly packed.
pub fn pack_vertices(vertices: &[Vertex]) -> (words: Vec<u32>)
    ensures
        words@ == vertex_words(vertices@),
{
    let mut words: Vec<u32> = Vec::new();
    let mut done: usize = 0;
    while done < vertices.len()
        invariant
            done <= vertices.len(),
            words@ == vertex_words(vertices@.take(done as int)),
        decreases vertices.len() - done,
    {
        let vertex = &vertices[done];
        words.push(vertex.position[0]);
        words.push(vertex.position[1]);
        words.push(vertex.position[2]);
        words.push(vertex.normal[0]);
        words.push(vertex.normal[1]);
        words.push(vertex.normal[2]);
        words.push(vertex.texture_coordinates[0]);
        words.push(vertex.texture_coordinates[1]);
        done = done + 1;
    }
    words
}

/// The two buffers of a mesh, as the bytes that the graphics device is given.
///
/// A mesh is never changed once it is loaded. It has no more indices than
/// one draw call covers.
#[derive(Debug, Hash)]
pub struct Mesh {
    vertex_buffer: Vec<u8>,
    index_buffer: Vec<u8>,
}

/// Id for accessing a mesh resource.
pub type MeshId = ResourceId<Mesh>;

impl Mesh {
    #[verifier::type_invariant]
    spec fn fits_a_draw_call(self) -> bool {
        self.index_buffer@.len() / 4 <= u32::MAX
    }

    /// The bytes of the vertex buffer.
    pub closed spec fn vertex_bytes(&self) -> Seq<u8> {
        self.vertex_buffer@
    }

    /// The bytes of the index buffer.
    pub closed spec fn index_bytes(&self) -> Seq<u8> {
        self.index_buffer@
    }

    /// The number of indices in the index buffer.
    pub open spec fn indices(&self) -> nat {
        self.index_bytes().len() / 4
    }

    /// The mesh whose buffers hold `vertices` and `indices`.
    pub open spec fn holds(&self, vertices: Seq<Vertex>, indices: Seq<Index>) -> bool {
        &&& self.vertex_bytes() == native_bytes(vertex_words(vertices))
        &&& self.index_bytes() == native_bytes(indices)
    }

    /// Lays out the vertex buffer and the index buffer of a mesh.
    ///
    /// One draw call covers at most `u32::MAX` indices, so a mesh has no
    /// more.
    pub fn load(mesh_data: MeshData) -> (mesh: Mesh)
        requires
            mesh_data.indices@.len() <= u32::MAX,
        ensures
            mesh.holds(mesh_data.vertices@, mesh_data.indices@),
            mesh.vertex_bytes().len() == VERTEX_STRIDE * mesh_data.vertices@.len(),
            mesh.index_bytes().len() == INDEX_SIZE * mesh_data.indices@.len(),
            mesh.indices() == mesh_data.indices@.len(),
    {
        let words = pack_vertices(mesh_data.vertices);
        Mesh {
            vertex_buffer: cast_words(words.as_slice()),
            index_buffer: cast_words(mesh_data.indices),
        }
    }

    /// The bytes of the vertex buffer: 32 for each vertex.
    pub fn vertex_buffer(&self) -> (bytes: &Vec<u8>)
        ensures
            bytes@ == self.vertex_bytes(),
    {
        &self.vertex_buffer
    }

    /// The bytes of the index buffer: 4 for each index.
    pub fn index_buffer(&self) -> (bytes: &Vec<u8>)
        ensures
            bytes@ == self.index_bytes(),
    {
        &self.index_buffer
    }

    /// The number of indices that a draw call of the whole mesh covers.
    pub fn index_count(&self) -> (count: u32)
        ensures
            count == self.indices(),
    {
        proof {
            use_type_invariant(self);
        }
        (self.index_buffer.len() / INDEX_SIZE) as u32
    }
}

} // verus!
