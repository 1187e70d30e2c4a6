/// The cache of the bind groups of textures.
pub mod bind_group_cache;
/// The commands that a frame hands to the graphics device.
pub mod command;
/// What the commands of a frame are.
pub mod frame;
/// The states that a frame goes through.
pub mod frame_state;
/// The layouts of the pipeline: vertices, bind groups and targets.
pub mod pipeline;
/// Render operations and their materials.
pub mod render_operation;
/// What the uniform buffers hold, and their bytes.
pub mod uniform_buffer;
/// The pool of the uniform buffers of a frame's objects.
pub mod uniform_buffer_pool;

pub use bind_group_cache::{BindGroupCache, TexturesBindGroup};
pub use command::Command;
pub use render_operation::{BasicDiffuseMaterial, Material, RenderOperation, TextureParameters};
pub use uniform_buffer_pool::UniformBufferPool;

use crate::graphics::mesh::{Mesh, MeshData};
use crate::graphics::texture::{decoded_image, DecodeError, Texture};
use crate::util::repository::{slot_resource, Repository, ResourceId};
use bind_group_cache::{entry_is_valid, revalidated};
use frame::{
    frame_commands,
    push_growth,
    push_pass,
    resolvable,
    texture_slot,
    validate_textures,
    validated,
};
use render_operation::RawRenderOperation;
use uniform_buffer::GlobalBuffer;
use uniform_buffer_pool::grown;
use vstd::prelude::*;

verus! {

/// What a render context holds, as contracts see it.
#[verifier::ext_equal]
pub struct RenderState {
    /// The width and the height that the surface is configured with.
    pub surface_size: (u32, u32),
    /// The depth buffer.
    pub depth_texture: Texture,
    /// The number of local buffers in the pool.
    pub pool_len: nat,
    /// The slots of the mesh repository.
    pub meshes: Seq<(Option<Mesh>, usize)>,
    /// The slots of the texture repository.
    pub textures: Seq<(Option<Texture>, usize)>,
    /// For each texture slot with a bind group, the generation that the
    /// bind group was built from.
    pub bind_groups: Map<usize, usize>,
}

/// Context for rendering visual elements.
///
/// The context keeps the meshes and textures that were loaded and decides
/// what the graphics device has to do for a frame. It talks to no device
/// itself: it hands out commands, and whoever holds the device carries them
/// out.
pub struct RenderContext {
    surface: Surface,
    /// The local buffers and their bind groups.
    bind_groups_and_buffers: UniformBufferPool,
    /// Mesh resources.
    meshes: Repository<Mesh>,
    /// Bind groups for textures.
    textures_bind_groups: BindGroupCache,
    /// Texture resources.
    textures: Repository<Texture>,
}

/// The size that the surface is configured with, and the depth buffer that
/// goes with it: a new one for every size, as large as the surface.
pub struct Surface {
    width: u32,
    height: u32,
    depth_texture: Texture,
}

impl Surface {
    #[verifier::type_invariant]
    spec fn depth_fits(self) -> bool {
        self.depth_texture.is_depth(self.width, self.height)
    }

    /// The width and the height of the surface.
    pub closed spec fn size(self) -> (u32, u32) {
        (self.width, self.height)
    }

    /// The depth buffer.
    pub closed spec fn depth(self) -> Texture {
        self.depth_texture
    }

    /// A surface of `width` by `height` texels with its depth buffer.
    pub fn new(width: u32, height: u32) -> (surface: Surface)
        ensures
            surface.size() == (width, height),
            surface.depth().is_depth(width, height),
    {
        Surface { width, height, depth_texture: Texture::create_depth_texture(width, height) }
    }

    /// The width and the height of the surface.
    pub fn extent(&self) -> (size: (u32, u32))
        ensures
            size == self.size(),
    {
        (self.width, self.height)
    }

    /// The depth buffer, which is as large as the surface.
    pub fn depth_texture(&self) -> (texture: &Texture)
        ensures
            *texture == self.depth(),
            texture.is_depth(self.size().0, self.size().1),
    {
        proof {
            use_type_invariant(self);
        }
        &self.depth_texture
    }
}

impl View for RenderContext {
    type V = RenderState;

    closed spec fn view(&self) -> RenderState {
        RenderState {
            surface_size: self.surface.size(),
            depth_texture: self.surface.depth(),
            pool_len: self.bind_groups_and_buffers@,
            meshes: self.meshes@,
            textures: self.textures@,
            bind_groups: self.textures_bind_groups@,
        }
    }
}

impl RenderState {
    /// Whether this state can render `operations`: the mesh and the
    /// texture of every operation exist.
    pub open spec fn can_render(self, operations: Seq<RenderOperation>) -> bool {
        resolvable(self.meshes, self.textures, operations)
    }

    /// The commands of the frame that renders `operations` from this state.
    pub open spec fn frame(
        self,
        model_view_projection: [[u32; 4]; 4],
        operations: Seq<RenderOperation>,
    ) -> Seq<Command> {
        frame_commands(
            self.pool_len,
            self.bind_groups,
            self.meshes,
            self.textures,
            model_view_projection,
            operations,
        )
    }

    /// The state after the frame that renders `operations`: the pool has
    /// grown to hold them, and their bind groups are valid.
    pub open spec fn after_frame(self, operations: Seq<RenderOperation>) -> RenderState {
        RenderState {
            pool_len: grown(self.pool_len, operations.len()),
            bind_groups: validated(self.bind_groups, self.textures, operations),
            ..self
        }
    }
}

impl RenderContext {
    /// Creates a new [`RenderContext`] for a surface of `width` by `height`
    /// texels: nothing is loaded, and the depth buffer is as large as the
    /// surface.
    pub fn new(width: u32, height: u32) -> (context: Self)
        ensures
            context@.surface_size == (width, height),
            context@.depth_texture.is_depth(width, height),
            context@.pool_len == 0,
            context@.meshes == Seq::<(Option<Mesh>, usize)>::empty(),
            context@.textures == Seq::<(Option<Texture>, usize)>::empty(),
            context@.bind_groups == Map::<usize, usize>::empty(),
    {
        RenderContext {
            surface: Surface::new(width, height),
            bind_groups_and_buffers: UniformBufferPool::new(),
            meshes: Repository::new(),
            textures_bind_groups: BindGroupCache::new(),
            textures: Repository::new(),
        }
    }

    /// The width and the height that the surface is configured with.
    pub fn surface_size(&self) -> (size: (u32, u32))
        ensures
            size == self@.surface_size,
    {
        self.surface.extent()
    }

    /// The depth buffer.
    pub fn depth_texture(&self) -> (texture: &Texture)
        ensures
            *texture == self@.depth_texture,
            texture.is_depth(self@.surface_size.0, self@.surface_size.1),
    {
        self.surface.depth_texture()
    }

    /// The meshes that were loaded.
    pub fn meshes(&self) -> (meshes: &Repository<Mesh>)
        ensures
            meshes@ == self@.meshes,
    {
        &self.meshes
    }

    /// The textures that were loaded.
    pub fn textures(&self) -> (textures: &Repository<Texture>)
        ensures
            textures@ == self@.textures,
    {
        &self.textures
    }

    /// The number of local buffers in the pool.
    pub fn pool_len(&self) -> (len: usize)
        ensures
            len == self@.pool_len,
    {
        self.bind_groups_and_buffers.len()
    }

    /// Loads a mesh and returns a [`ResourceId`] that refers to it.
    ///
    /// The mesh goes into a new slot at the end of the mesh repository.
    /// One draw call covers at most `u32::MAX` indices, so a mesh has no
    /// more.
    pub fn load_mesh(&mut self, mesh_data: MeshData) -> (id: ResourceId<Mesh>)
        requires
            mesh_data.indices@.len() <= u32::MAX,
            old(self)@.meshes.len() < usize::MAX,
        ensures
            id.index == old(self)@.meshes.len(),
            final(self)@.meshes.len() == old(self)@.meshes.len() + 1,
            final(self)@.meshes.drop_last() == old(self)@.meshes,
            final(self)@.meshes.last().1 == 1,
            final(self)@.meshes.last().0 matches Some(mesh) && mesh.holds(
                mesh_data.vertices@,
                mesh_data.indices@,
            ),
            final(self)@ == (RenderState { meshes: final(self)@.meshes, ..old(self)@ }),
    {
        let mesh = Mesh::load(mesh_data);
        let id = self.meshes.add(mesh, None);
        id
    }

    /// Registers a texture and returns a [`ResourceId`] that refers to
    /// it. The texture goes into a new slot at the end of the texture
    /// repository.
    pub fn add_texture(&mut self, texture: Texture) -> (id: ResourceId<Texture>)
        requires
            old(self)@.textures.len() < usize::MAX,
        ensures
            id.index == old(self)@.textures.len(),
            final(self)@ == (RenderState {
                textures: old(self)@.textures.push((Some(texture), 1)),
                ..old(self)@
            }),
    {
        let id = self.textures.add(texture, None);
        id
    }

    /// Loads a texture and returns a [`ResourceId`] that refers to it.
    ///
    /// Bytes that are no image give a [`DecodeError`], and nothing is
    /// registered.
    pub fn load_texture(&mut self, bytes: &[u8]) -> (loaded: Result<ResourceId<Texture>, DecodeError>)
        requires
            old(self)@.textures.len() < usize::MAX,
        ensures
            match decoded_image(bytes@) {
                Some((width, height, pixels)) => {
                    &&& loaded matches Ok(id)
                    &&& id.index == old(self)@.textures.len()
                    &&& final(self)@.textures.len() == old(self)@.textures.len() + 1
                    &&& final(self)@.textures.drop_last() == old(self)@.textures
                    &&& final(self)@.textures.last().1 == 1
                    &&& final(self)@.textures.last().0 matches Some(texture)
                    &&& texture.is_rgba8(width, height, pixels)
                    &&& final(self)@ == (RenderState {
                        textures: final(self)@.textures,
                        ..old(self)@
                    })
                },
                None => loaded is Err && final(self)@ == old(self)@,
            },
    {
        match Texture::load(bytes) {
            Ok(texture) => {
                let id = self.add_texture(texture);
                Ok(id)
            },
            Err(error) => Err(error),
        }
    }

    /// Whether the mesh and the texture of every operation exist, so that
    /// the operations can be rendered.
    pub fn can_render(&self, operations: &[RenderOperation]) -> (possible: bool)
        ensures
            possible == self@.can_render(operations@),
    {
        let mut index: usize = 0;
        while index < operations.len()
            invariant
                index <= operations.len(),
                resolvable(self.meshes@, self.textures@, operations@.take(index as int)),
            decreases operations.len() - index,
        {
            let raw = RawRenderOperation::from(operations[index]);
            let mesh_exists = self.meshes.get(raw.mesh_id).is_some();
            let texture_exists = self.textures.get(raw.texture_group_ids[0]).is_some();
            if !mesh_exists || !texture_exists {
                return false;
            }
            proof {
                // The operations so far can be rendered, and so can this one.
                assert forall|i: int| 0 <= i < index + 1 implies {
                    &&& slot_resource(
                        self.meshes@,
                        (#[trigger] operations@.take(index + 1)[i]).mesh_id.index as int,
                    ) is Some
                    &&& slot_resource(
                        self.textures@,
                        texture_slot(operations@.take(index + 1)[i]) as int,
                    ) is Some
                } by {
                    if i < index {
                        assert(operations@.take(index + 1)[i] == operations@.take(index as int)[i]);
                    }
                }
            }
            index = index + 1;
        }
        assert(operations@.take(index as int) =~= operations@);
        true
    }

    /// Performs a render pass: decides what the device has to do to draw
    /// `operations` as seen through `model_view_projection`, and returns
    /// the commands in the order in which they are to be carried out.
    ///
    /// The mesh and the texture of every operation must exist.
    pub fn perform_render_pass(
        &mut self,
        model_view_projection: [[u32; 4]; 4],
        operations: &[RenderOperation],
    ) -> (commands: Vec<Command>)
        requires
            old(self)@.can_render(operations@),
        ensures
            commands@ == old(self)@.frame(model_view_projection, operations@),
            final(self)@ == old(self)@.after_frame(operations@),
    {
        let mut commands: Vec<Command> = Vec::new();

        // Step 1: Create necessary local buffers.
        let first_new = self.bind_groups_and_buffers.ensure_capacity(operations.len());
        push_growth(&mut commands, first_new, operations.len());

        // Step 2: Copy over the global buffer data.
        commands.push(
            Command::WriteGlobalBuffer { contents: GlobalBuffer { mvp: model_view_projection } },
        );

        // Step 3: Ensure all texture bind groups are created and valid.
        validate_textures(&mut self.textures_bind_groups, &self.textures, operations, &mut commands);

        // Step 4: Start the render pass.
        commands.push(Command::AcquireSurfaceTexture);
        commands.push(
            Command::BeginRenderPass {
                clear_color: command::clear_color(),
                clear_depth: command::DEPTH_FAR,
            },
        );
        commands.push(Command::SetPipeline);

        // Step 5: Copy data from local buffers and render.
        push_pass(&mut commands, &self.meshes, &self.textures, operations);

        // Step 6: Submit the pass and present.
        commands.push(Command::EndRenderPass);
        commands.push(Command::Submit);
        commands.push(Command::Present);
        commands
    }

    /// Resizes the surface that is rendered to, and the depth buffer
    /// with it.
    pub fn resize_surface(&mut self, width: u32, height: u32)
        ensures
            final(self)@.depth_texture.is_depth(width, height),
            final(self)@ == (RenderState {
                surface_size: (width, height),
                depth_texture: final(self)@.depth_texture,
                ..old(self)@
            }),
    {
        self.surface = Surface::new(width, height);
    }

    /// Ensures the bind group for the group of textures is created and
    /// valid, and says whether it had to be built for that.
    pub fn ensure_textures_bind_group_valid(&mut self, texture_ids: [ResourceId<Texture>; 1]) -> (rebuilt:
        bool)
        requires
            slot_resource(old(self)@.textures, texture_ids[0].index as int) is Some,
        ensures
            rebuilt == !entry_is_valid(
                old(self)@.bind_groups,
                old(self)@.textures,
                texture_ids[0].index,
            ),
            final(self)@ == (RenderState {
                bind_groups: revalidated(
                    old(self)@.bind_groups,
                    old(self)@.textures,
                    texture_ids[0].index,
                ),
                ..old(self)@
            }),
    {
        let rebuilt = self.textures_bind_groups.ensure_valid(texture_ids, &self.textures);
        rebuilt
    }

    /// Gets the appropriate bind group for the following texture. One
    /// must have been built.
    pub fn get_textures_bind_group(&self, diffuse_texture_id: ResourceId<Texture>) -> (group:
        TexturesBindGroup)
        requires
            self@.bind_groups.contains_key(diffuse_texture_id.index),
        ensures
            group.texture_ids[0] == diffuse_texture_id,
            group.generations[0] == self@.bind_groups[diffuse_texture_id.index],
    {
        let key = [diffuse_texture_id];
        match self.textures_bind_groups.get(key) {
            Some(group) => group,
            None => TexturesBindGroup { texture_ids: key, generations: [0] },
        }
    }
}

} // verus!
