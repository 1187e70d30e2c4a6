use clockwork::graphics::default_meshes::{
    cube_mesh_indices, cube_mesh_vertices, quad_mesh_indices, quad_mesh_vertices, HALF,
    MINUS_HALF, ONE, ZERO,
};
use clockwork::graphics::{Mesh, MeshData, Vertex};

fn numbers(vertex: &Vertex) -> ([f32; 3], [f32; 3], [f32; 2]) {
    (
        vertex.position.map(f32::from_bits),
        vertex.normal.map(f32::from_bits),
        vertex.texture_coordinates.map(f32::from_bits),
    )
}

#[test]
fn the_bits_of_the_numbers() {
    assert_eq!(f32::from_bits(ZERO), 0.0);
    assert_eq!(f32::from_bits(ONE), 1.0);
    assert_eq!(f32::from_bits(HALF), 0.5);
    assert_eq!(f32::from_bits(MINUS_HALF), -0.5);
}

#[test]
fn the_quad() {
    let vertices = quad_mesh_vertices();
    let expected = [
        ([-0.5, -0.5, 0.0], [0.0, 0.0, 1.0], [0.0, 1.0]),
        ([0.5, -0.5, 0.0], [0.0, 0.0, 1.0], [1.0, 1.0]),
        ([-0.5, 0.5, 0.0], [0.0, 0.0, 1.0], [0.0, 0.0]),
        ([0.5, 0.5, 0.0], [0.0, 0.0, 1.0], [1.0, 0.0]),
    ];
    for (vertex, expected) in vertices.iter().zip(expected) {
        assert_eq!(numbers(vertex), expected);
    }
    assert_eq!(quad_mesh_indices(), [0, 1, 3, 0, 3, 2]);
    let mesh = Mesh::load(MeshData { vertices: &vertices, indices: &quad_mesh_indices() });
    assert_eq!(mesh.index_count(), 6);
    assert_eq!(mesh.vertex_buffer().len(), 4 * 32);
}

#[test]
fn the_cube() {
    let vertices = cube_mesh_vertices();
    let expected = [
        ([-0.5, -0.5, 0.5], [0.0, 0.0, 1.0], [0.0, 1.0]),
        ([0.5, -0.5, 0.5], [0.0, 0.0, 1.0], [1.0, 1.0]),
        ([-0.5, 0.5, 0.5], [0.0, 0.0, 1.0], [0.0, 0.0]),
        ([0.5, 0.5, 0.5], [0.0, 0.0, 1.0], [1.0, 0.0]),
        ([-0.5, -0.5, -0.5], [0.0, 0.0, 1.0], [0.0, 0.0]),
        ([0.5, -0.5, -0.5], [0.0, 0.0, 1.0], [0.0, 0.0]),
        ([-0.5, 0.5, -0.5], [0.0, 0.0, 1.0], [0.0, 1.0]),
        ([0.5, 0.5, -0.5], [0.0, 0.0, 1.0], [0.0, 1.0]),
    ];
    for (vertex, expected) in vertices.iter().zip(expected) {
        assert_eq!(numbers(vertex), expected);
    }
    assert_eq!(
        cube_mesh_indices(),
        [0, 1, 3, 0, 3, 2, 7, 5, 4, 6, 7, 4, 2, 3, 7, 2, 7, 6, 4, 0, 2, 4, 2, 6]
    );
    assert!(cube_mesh_indices().iter().all(|index| (*index as usize) < vertices.len()));
}
