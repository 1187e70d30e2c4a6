use clockwork::graphics::mesh::{pack_vertices, INDEX_SIZE, VERTEX_STRIDE, VERTEX_WORDS};
use clockwork::graphics::render_context::pipeline::{
    create_buffers_bind_group_layout, create_render_pipeline, create_render_pipeline_layout,
    create_textures_bind_group_layout, vertex_attr_array, vertex_buffer_layout, BindGroupKind,
    BindGroupLayoutEntry, BindingType, BlendState, CompareFunction, ShaderStages, SurfaceFormat,
    VertexAttribute, VertexFormat,
};
use clockwork::graphics::render_context::uniform_buffer::{
    GlobalBuffer, LocalBuffer, GLOBAL_BUFFER_SIZE, LOCAL_BUFFER_SIZE,
};
use clockwork::graphics::texture::TextureFormat;
use clockwork::graphics::{Mesh, MeshData, Vertex};

fn native(words: &[u32]) -> Vec<u8> {
    words.iter().flat_map(|word| word.to_ne_bytes()).collect()
}

fn floats(bytes: &[u8]) -> Vec<f32> {
    bytes
        .chunks(4)
        .map(|four| f32::from_ne_bytes([four[0], four[1], four[2], four[3]]))
        .collect()
}

#[test]
fn indices_become_their_bytes_in_memory_order() {
    let indices = [0x0403_0201u32, 1, u32::MAX, 0xDEAD_BEEF];
    let mesh = Mesh::load(MeshData { vertices: &[], indices: &indices });
    assert_eq!(mesh.index_buffer().len(), 16);
    assert_eq!(mesh.index_buffer(), &native(&indices));
    assert_eq!(&mesh.index_buffer()[..4], &0x0403_0201u32.to_ne_bytes());
}

#[test]
fn a_vertex_is_packed_as_position_normal_coordinate() {
    let vertex = Vertex {
        position: [1.0f32, 2.0, 3.0].map(f32::to_bits),
        normal: [4.0f32, 5.0, 6.0].map(f32::to_bits),
        texture_coordinates: [7.0f32, 8.0].map(f32::to_bits),
    };
    let other = Vertex {
        position: [-1.0f32, -2.0, -3.0].map(f32::to_bits),
        normal: [0.0f32, 0.0, 1.0].map(f32::to_bits),
        texture_coordinates: [0.5f32, 0.25].map(f32::to_bits),
    };
    let words = pack_vertices(&[vertex, other]);
    assert_eq!(words.len(), 2 * VERTEX_WORDS);
    let numbers: Vec<f32> = words.iter().map(|word| f32::from_bits(*word)).collect();
    assert_eq!(
        numbers,
        vec![1.0, 2.0, 3.0, 4.0, 5.0, 6.0, 7.0, 8.0, -1.0, -2.0, -3.0, 0.0, 0.0, 1.0, 0.5, 0.25]
    );
    assert_eq!(pack_vertices(&[]), Vec::<u32>::new());
}

#[test]
fn a_mesh_holds_its_buffers_as_bytes() {
    let vertices = [
        Vertex {
            position: [0.5f32, -0.5, 0.0].map(f32::to_bits),
            normal: [0.0f32, 0.0, 1.0].map(f32::to_bits),
            texture_coordinates: [1.0f32, 1.0].map(f32::to_bits),
        },
        Vertex {
            position: [-0.5f32, 0.5, 0.0].map(f32::to_bits),
            normal: [0.0f32, 0.0, 1.0].map(f32::to_bits),
            texture_coordinates: [0.0f32, 0.0].map(f32::to_bits),
        },
    ];
    let indices = [0u32, 1, 0, 1, 1];
    let mesh = Mesh::load(MeshData { vertices: &vertices, indices: &indices });
    assert_eq!(mesh.vertex_buffer().len(), 2 * VERTEX_STRIDE);
    assert_eq!(mesh.index_buffer().len(), 5 * INDEX_SIZE);
    assert_eq!(mesh.index_count(), 5);
    assert_eq!(mesh.index_buffer(), &native(&indices));
    assert_eq!(
        floats(mesh.vertex_buffer()),
        vec![0.5, -0.5, 0.0, 0.0, 0.0, 1.0, 1.0, 1.0, -0.5, 0.5, 0.0, 0.0, 0.0, 1.0, 0.0, 0.0]
    );
}

#[test]
fn a_mesh_without_anything_has_empty_buffers() {
    let mesh = Mesh::load(MeshData { vertices: &[], indices: &[] });
    assert_eq!(mesh.vertex_buffer().len(), 0);
    assert_eq!(mesh.index_buffer().len(), 0);
    assert_eq!(mesh.index_count(), 0);
}

#[test]
fn the_global_buffer_is_a_matrix_column_by_column() {
    let mvp = [
        [1.0f32, 2.0, 3.0, 4.0],
        [5.0, 6.0, 7.0, 8.0],
        [9.0, 10.0, 11.0, 12.0],
        [13.0, 14.0, 15.0, 16.0],
    ]
    .map(|column| column.map(f32::to_bits));
    let bytes = GlobalBuffer { mvp }.bytes();
    assert_eq!(bytes.len(), GLOBAL_BUFFER_SIZE);
    assert_eq!(bytes.len(), 64);
    let expected: Vec<f32> = (1..=16).map(|number| number as f32).collect();
    assert_eq!(floats(&bytes), expected);
    assert_eq!(GlobalBuffer::zeroed().bytes(), vec![0u8; 64]);
}

#[test]
fn the_local_buffer_is_a_matrix_and_a_window() {
    let transform = [
        [1.0f32, 0.0, 0.0, 0.0],
        [0.0, 1.0, 0.0, 0.0],
        [0.0, 0.0, 1.0, 0.0],
        [7.0, 8.0, 9.0, 1.0],
    ]
    .map(|column| column.map(f32::to_bits));
    let uv_window = [0.25f32, 0.5, 0.125, 1.0].map(f32::to_bits);
    let bytes = LocalBuffer { transform, uv_window }.bytes();
    assert_eq!(bytes.len(), LOCAL_BUFFER_SIZE);
    assert_eq!(bytes.len(), 80);
    assert_eq!(
        floats(&bytes),
        vec![
            1.0, 0.0, 0.0, 0.0, 0.0, 1.0, 0.0, 0.0, 0.0, 0.0, 1.0, 0.0, 7.0, 8.0, 9.0, 1.0, 0.25,
            0.5, 0.125, 1.0
        ]
    );
    assert_eq!(LocalBuffer::zeroed().bytes(), vec![0u8; 80]);
}

#[test]
fn the_vertex_layout_is_tightly_packed() {
    let layout = vertex_buffer_layout();
    assert_eq!(layout.array_stride, 32);
    assert_eq!(layout.array_stride, VERTEX_STRIDE as u64);
    assert_eq!(
        layout.attributes,
        vec![
            VertexAttribute { format: VertexFormat::Float32x3, offset: 0, shader_location: 0 },
            VertexAttribute { format: VertexFormat::Float32x3, offset: 12, shader_location: 1 },
            VertexAttribute { format: VertexFormat::Float32x2, offset: 24, shader_location: 2 },
        ]
    );
    assert_eq!(VertexFormat::Float32x2.size(), 8);
    assert_eq!(VertexFormat::Float32x3.size(), 12);
}

#[test]
fn attributes_follow_each_other() {
    let attributes =
        vertex_attr_array(&[(0, VertexFormat::Float32x2), (3, VertexFormat::Float32x3), (1, VertexFormat::Float32x2)]);
    assert_eq!(
        attributes,
        vec![
            VertexAttribute { format: VertexFormat::Float32x2, offset: 0, shader_location: 0 },
            VertexAttribute { format: VertexFormat::Float32x3, offset: 8, shader_location: 3 },
            VertexAttribute { format: VertexFormat::Float32x2, offset: 20, shader_location: 1 },
        ]
    );
    assert_eq!(vertex_attr_array(&[]), vec![]);
}

#[test]
fn the_bind_group_layouts() {
    assert_eq!(
        create_buffers_bind_group_layout(),
        vec![
            BindGroupLayoutEntry {
                binding: 0,
                visibility: ShaderStages::VertexFragment,
                ty: BindingType::UniformBuffer
            },
            BindGroupLayoutEntry {
                binding: 1,
                visibility: ShaderStages::VertexFragment,
                ty: BindingType::UniformBuffer
            },
        ]
    );
    assert_eq!(
        create_textures_bind_group_layout(),
        vec![
            BindGroupLayoutEntry {
                binding: 0,
                visibility: ShaderStages::Fragment,
                ty: BindingType::FilteringSampler
            },
            BindGroupLayoutEntry {
                binding: 1,
                visibility: ShaderStages::Fragment,
                ty: BindingType::FilterableTexture2d
            },
        ]
    );
    assert_eq!(create_render_pipeline_layout(), [BindGroupKind::Buffers, BindGroupKind::Textures]);
}

#[test]
fn the_render_pipeline() {
    let pipeline = create_render_pipeline();
    assert_eq!(pipeline.vertex_entry_point, "vs_main");
    assert_eq!(pipeline.fragment_entry_point, "fs_main");
    assert_eq!(pipeline.vertex_buffer.array_stride, 32);
    assert_eq!(pipeline.vertex_buffer.attributes.len(), 3);
    assert_eq!(pipeline.target_format, SurfaceFormat::Bgra8UnormSrgb);
    assert_eq!(pipeline.blend, BlendState::PremultipliedAlphaBlending);
    assert!(!pipeline.cull_back_faces);
    assert_eq!(pipeline.depth_format, TextureFormat::Depth32Float);
    assert!(pipeline.depth_write_enabled);
    assert_eq!(pipeline.depth_compare, CompareFunction::LessEqual);
    assert_eq!(pipeline.sample_count, 1);
}
