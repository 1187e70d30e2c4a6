use clockwork::graphics::render_context::{
    BasicDiffuseMaterial, BindGroupCache, Command, Material, RenderContext, RenderOperation,
    TextureParameters, TexturesBindGroup, UniformBufferPool,
};
use clockwork::graphics::render_context::uniform_buffer::{GlobalBuffer, LocalBuffer};
use clockwork::graphics::{Mesh, MeshData, Texture, Vertex};
use clockwork::util::repository::{Repository, ResourceId};

const ONE: u32 = 0x3F80_0000;

fn bits(matrix: [[f32; 4]; 4]) -> [[u32; 4]; 4] {
    matrix.map(|column| column.map(f32::to_bits))
}

fn identity() -> [[u32; 4]; 4] {
    bits([
        [1.0, 0.0, 0.0, 0.0],
        [0.0, 1.0, 0.0, 0.0],
        [0.0, 0.0, 1.0, 0.0],
        [0.0, 0.0, 0.0, 1.0],
    ])
}

fn vertex(x: f32, y: f32, u: f32, v: f32) -> Vertex {
    Vertex {
        position: [x.to_bits(), y.to_bits(), 0.0f32.to_bits()],
        normal: [0.0f32.to_bits(), 0.0f32.to_bits(), 1.0f32.to_bits()],
        texture_coordinates: [u.to_bits(), v.to_bits()],
    }
}

fn quad() -> Vec<Vertex> {
    vec![
        vertex(-0.5, -0.5, 0.0, 1.0),
        vertex(0.5, -0.5, 1.0, 1.0),
        vertex(-0.5, 0.5, 0.0, 0.0),
        vertex(0.5, 0.5, 1.0, 0.0),
    ]
}

const QUAD_INDICES: [u32; 6] = [0, 1, 3, 0, 3, 2];

fn white() -> Texture {
    Texture::from_rgba8(1, 1, vec![255, 255, 255, 255])
}

fn group(index: usize, generation: usize) -> TexturesBindGroup {
    TexturesBindGroup { texture_ids: [ResourceId::new(index)], generations: [generation] }
}

/// A context with one quad, and one texture in each of the slots 0 and 1.
fn context_with_quad() -> (RenderContext, ResourceId<Mesh>) {
    let mut context = RenderContext::new(640, 480);
    let vertices = quad();
    let mesh = context.load_mesh(MeshData { vertices: &vertices, indices: &QUAD_INDICES });
    context.add_texture(white());
    context.add_texture(white());
    (context, mesh)
}

fn draws(commands: &[Command]) -> Vec<Command> {
    commands.iter().copied().filter(|command| matches!(command, Command::DrawIndexed { .. })).collect()
}

fn builds(commands: &[Command]) -> Vec<Command> {
    commands
        .iter()
        .copied()
        .filter(|command| matches!(command, Command::CreateTexturesBindGroup { .. }))
        .collect()
}

#[test]
fn a_new_context_holds_nothing() {
    let context = RenderContext::new(640, 480);
    assert_eq!(context.surface_size(), (640, 480));
    assert_eq!(context.pool_len(), 0);
    assert_eq!(context.meshes().len(), 0);
    assert_eq!(context.textures().len(), 0);
    let depth = context.depth_texture();
    assert_eq!((depth.width, depth.height), (640, 480));
}

#[test]
fn a_loaded_mesh_is_drawn_with_all_its_indices() {
    let (mut context, mesh) = context_with_quad();
    assert_eq!(mesh.index, 0);
    let operations = [RenderOperation::colored_mesh(identity(), mesh, [ONE; 4])];
    assert!(context.can_render(&operations));
    let commands = context.perform_render_pass(identity(), &operations);
    assert_eq!(
        draws(&commands),
        vec![Command::DrawIndexed { index_count: QUAD_INDICES.len() as u32, instance_count: 1 }]
    );
}

#[test]
fn the_commands_of_a_frame_in_order() {
    let (mut context, mesh) = context_with_quad();
    let window = [0.25f32, 0.5, 0.25, 0.5].map(f32::to_bits);
    let transform = bits([
        [2.0, 0.0, 0.0, 0.0],
        [0.0, 2.0, 0.0, 0.0],
        [0.0, 0.0, 2.0, 0.0],
        [3.0, 4.0, 5.0, 1.0],
    ]);
    let operations = [RenderOperation::textured_mesh(
        transform,
        mesh,
        ResourceId::new(1),
        Some(window),
        [ONE; 4],
    )];
    let commands = context.perform_render_pass(identity(), &operations);
    let expected = vec![
        Command::CreateLocalBuffer { slot: 0 },
        Command::WriteGlobalBuffer { contents: GlobalBuffer { mvp: identity() } },
        Command::CreateTexturesBindGroup { group: group(1, 1) },
        Command::AcquireSurfaceTexture,
        Command::BeginRenderPass {
            clear_color: [0.1f64, 0.2, 0.3, 1.0].map(f64::to_bits),
            clear_depth: 1.0f32.to_bits(),
        },
        Command::SetPipeline,
        Command::WriteLocalBuffer { slot: 0, contents: LocalBuffer { transform, uv_window: window } },
        Command::SetBuffersBindGroup { slot: 0 },
        Command::SetTexturesBindGroup { group: group(1, 1) },
        Command::SetVertexBuffer { mesh_id: mesh },
        Command::SetIndexBuffer { mesh_id: mesh },
        Command::DrawIndexed { index_count: 6, instance_count: 1 },
        Command::EndRenderPass,
        Command::Submit,
        Command::Present,
    ];
    assert_eq!(commands, expected);
}

#[test]
fn a_frame_without_operations_still_clears_and_presents() {
    let mut context = RenderContext::new(4, 4);
    let commands = context.perform_render_pass(identity(), &[]);
    assert_eq!(commands.len(), 7);
    assert_eq!(commands[0], Command::WriteGlobalBuffer { contents: GlobalBuffer { mvp: identity() } });
    assert_eq!(commands[1], Command::AcquireSurfaceTexture);
    assert_eq!(commands[3], Command::SetPipeline);
    assert_eq!(commands[4], Command::EndRenderPass);
    assert_eq!(commands[6], Command::Present);
    assert_eq!(context.pool_len(), 0);
}

#[test]
fn operations_are_drawn_in_the_order_given() {
    let mut context = RenderContext::new(640, 480);
    let vertices = quad();
    let small = context.load_mesh(MeshData { vertices: &vertices, indices: &[0, 1, 2] });
    let large = context.load_mesh(MeshData { vertices: &vertices, indices: &QUAD_INDICES });
    context.add_texture(white());
    let operations = [
        RenderOperation::colored_mesh(identity(), large, [ONE; 4]),
        RenderOperation::colored_mesh(identity(), small, [ONE; 4]),
        RenderOperation::colored_mesh(identity(), large, [ONE; 4]),
    ];
    let commands = context.perform_render_pass(identity(), &operations);
    assert_eq!(
        draws(&commands),
        vec![
            Command::DrawIndexed { index_count: 6, instance_count: 1 },
            Command::DrawIndexed { index_count: 3, instance_count: 1 },
            Command::DrawIndexed { index_count: 6, instance_count: 1 },
        ]
    );
    let slots: Vec<usize> = commands
        .iter()
        .filter_map(|command| match command {
            Command::WriteLocalBuffer { slot, .. } => Some(*slot),
            _ => None,
        })
        .collect();
    assert_eq!(slots, vec![0, 1, 2]);
    // One bind group serves all three: they sample the same texture.
    assert_eq!(builds(&commands).len(), 1);
}

#[test]
fn the_pool_grows_and_never_shrinks() {
    let (mut context, mesh) = context_with_quad();
    let operation = RenderOperation::colored_mesh(identity(), mesh, [ONE; 4]);
    let three = context.perform_render_pass(identity(), &[operation; 3]);
    assert_eq!(context.pool_len(), 3);
    assert_eq!(
        &three[..3],
        &[
            Command::CreateLocalBuffer { slot: 0 },
            Command::CreateLocalBuffer { slot: 1 },
            Command::CreateLocalBuffer { slot: 2 },
        ]
    );
    let one = context.perform_render_pass(identity(), &[operation; 1]);
    assert_eq!(context.pool_len(), 3);
    assert!(!one.iter().any(|command| matches!(command, Command::CreateLocalBuffer { .. })));
    let five = context.perform_render_pass(identity(), &[operation; 5]);
    assert_eq!(context.pool_len(), 5);
    assert_eq!(
        &five[..2],
        &[Command::CreateLocalBuffer { slot: 3 }, Command::CreateLocalBuffer { slot: 4 }]
    );
}

#[test]
fn ensure_capacity_keeps_the_larger_capacity() {
    let mut pool = UniformBufferPool::new();
    assert_eq!(pool.ensure_capacity(7), 0);
    assert_eq!(pool.len(), 7);
    assert_eq!(pool.ensure_capacity(3), 7);
    assert_eq!(pool.len(), 7);
    assert_eq!(pool.ensure_capacity(7), 7);
    assert_eq!(pool.len(), 7);
    assert_eq!(pool.ensure_capacity(9), 7);
    assert_eq!(pool.len(), 9);
    assert_eq!(pool.ensure_capacity(0), 9);
    assert_eq!(pool.len(), 9);
}

#[test]
fn bind_groups_are_built_once_and_used_again() {
    let (mut context, mesh) = context_with_quad();
    let operations = [
        RenderOperation::textured_mesh(identity(), mesh, ResourceId::new(1), None, [ONE; 4]),
        RenderOperation::colored_mesh(identity(), mesh, [ONE; 4]),
    ];
    let first = context.perform_render_pass(identity(), &operations);
    assert_eq!(
        builds(&first),
        vec![
            Command::CreateTexturesBindGroup { group: group(1, 1) },
            Command::CreateTexturesBindGroup { group: group(0, 1) },
        ]
    );
    let second = context.perform_render_pass(identity(), &operations);
    assert_eq!(builds(&second), vec![]);
    assert_eq!(context.get_textures_bind_group(ResourceId::new(0)), group(0, 1));
    assert_eq!(context.get_textures_bind_group(ResourceId::new(1)), group(1, 1));
}

#[test]
fn two_textures_have_two_bind_groups_and_a_replacement_touches_one() {
    let mut textures = Repository::<Texture>::new();
    let first = textures.add(white(), None);
    let second = textures.add(white(), None);
    let mut cache = BindGroupCache::new();
    assert_eq!(cache.get([first]), None);
    assert!(cache.ensure_valid([first], &textures));
    assert!(cache.ensure_valid([second], &textures));
    let first_group = cache.get([first]).unwrap();
    let second_group = cache.get([second]).unwrap();
    assert_ne!(first_group, second_group);
    assert_eq!(first_group, group(0, 1));
    assert_eq!(second_group, group(1, 1));
    // Both are valid now.
    assert!(!cache.ensure_valid([first], &textures));
    assert!(!cache.ensure_valid([second], &textures));

    // Another texture takes the first slot.
    textures.add(Texture::from_rgba8(1, 1, vec![0, 0, 0, 255]), Some(first));
    assert_eq!(textures.get(first).unwrap().pixels, vec![0, 0, 0, 255]);
    assert!(!cache.ensure_valid([second], &textures));
    assert_eq!(cache.get([second]).unwrap(), second_group);
    assert!(cache.ensure_valid([first], &textures));
    let rebuilt = cache.get([first]).unwrap();
    assert_ne!(rebuilt, first_group);
    assert_eq!(rebuilt, group(0, 2));
    assert!(!cache.ensure_valid([first], &textures));
}

#[test]
fn a_context_builds_a_bind_group_when_asked() {
    let (mut context, _) = context_with_quad();
    assert!(context.ensure_textures_bind_group_valid([ResourceId::new(1)]));
    assert!(!context.ensure_textures_bind_group_valid([ResourceId::new(1)]));
    assert_eq!(context.get_textures_bind_group(ResourceId::new(1)), group(1, 1));
}

#[test]
fn operations_without_their_resources_cannot_be_rendered() {
    let (context, mesh) = context_with_quad();
    let missing_mesh = RenderOperation::colored_mesh(identity(), ResourceId::new(5), [ONE; 4]);
    let missing_texture =
        RenderOperation::textured_mesh(identity(), mesh, ResourceId::new(9), None, [ONE; 4]);
    let fine = RenderOperation::colored_mesh(identity(), mesh, [ONE; 4]);
    assert!(context.can_render(&[fine]));
    assert!(context.can_render(&[]));
    assert!(!context.can_render(&[fine, missing_mesh]));
    assert!(!context.can_render(&[missing_texture, fine]));
    // A colored mesh samples the texture in slot 0.
    let empty = RenderContext::new(1, 1);
    assert!(!empty.can_render(&[fine]));
}

#[test]
fn resizing_makes_a_depth_buffer_of_the_new_size() {
    let (mut context, _) = context_with_quad();
    context.resize_surface(1024, 768);
    assert_eq!(context.surface_size(), (1024, 768));
    let depth = context.depth_texture();
    assert_eq!((depth.width, depth.height), (1024, 768));
    assert!(depth.render_target);
    assert!(depth.pixels.is_empty());
    assert_eq!(context.meshes().len(), 1);
    assert_eq!(context.textures().len(), 2);
}

#[test]
fn materials_and_their_defaults() {
    let mesh = ResourceId::<Mesh>::new(2);
    let color = [0.5f32, 0.25, 0.125, 1.0].map(f32::to_bits);
    let colored = RenderOperation::colored_mesh(identity(), mesh, color);
    assert_eq!(colored.mesh_id, mesh);
    let Material::BasicDiffuse(BasicDiffuseMaterial { color: kept, texture_parameters }) =
        colored.material;
    assert_eq!(kept, color);
    assert!(texture_parameters.is_none());

    let textured = RenderOperation::textured_mesh(identity(), mesh, ResourceId::new(4), None, color);
    let Material::BasicDiffuse(material) = textured.material;
    let parameters = material.texture_parameters.unwrap();
    assert_eq!(parameters.texture_id, ResourceId::new(4));
    assert_eq!(parameters.uv_window.map(f32::from_bits), [0.0, 0.0, 0.0, 0.0]);

    let default = TextureParameters::default();
    assert_eq!(default.texture_id.index, 0);
    assert_eq!(default.uv_window.map(f32::from_bits), [0.0, 0.0, 1.0, 1.0]);
    let whole = TextureParameters::new(ResourceId::new(7), None);
    assert_eq!(whole.texture_id.index, 7);
    assert_eq!(whole.uv_window.map(f32::from_bits), [0.0, 0.0, 1.0, 1.0]);
    let window = [0.5f32, 0.5, 0.25, 0.25].map(f32::to_bits);
    assert_eq!(TextureParameters::new(ResourceId::new(7), Some(window)).uv_window, window);
}

#[test]
fn a_colored_mesh_samples_the_whole_of_texture_zero() {
    let (mut context, mesh) = context_with_quad();
    let operations = [RenderOperation::colored_mesh(identity(), mesh, [ONE; 4])];
    let commands = context.perform_render_pass(identity(), &operations);
    assert!(commands.contains(&Command::SetTexturesBindGroup { group: group(0, 1) }));
    assert!(commands.contains(&Command::WriteLocalBuffer {
        slot: 0,
        contents: LocalBuffer {
            transform: identity(),
            uv_window: [0.0f32, 0.0, 1.0, 1.0].map(f32::to_bits),
        },
    }));
}
