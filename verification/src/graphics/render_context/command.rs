use crate::graphics::mesh::Mesh;
use crate::graphics::render_context::bind_group_cache::TexturesBindGroup;
use crate::graphics::render_context::uniform_buffer::{GlobalBuffer, LocalBuffer};
use crate::util::repository::ResourceId;
use vstd::prelude::*;

verus! {

/// One thing that a frame asks of the graphics device.
///
/// The render context decides on the commands of a frame and on their
/// order; whoever holds the device carries them out, one after the other.
#[allow(inconsistent_fields)]
#[derive(Clone, Copy, Debug, PartialEq, Eq)]
pub enum Command {
    /// Create the local buffer of the pool slot `slot`, filled with zeros,
    /// and the binding object that names the global buffer at binding 0
    /// and this buffer at binding 1.
    CreateLocalBuffer { slot: usize },
    /// Write `contents` over the global buffer.
    WriteGlobalBuffer { contents: GlobalBuffer },
    /// Build the binding object that names the sampler at binding 0 and
    /// the view of the texture at binding 1, in place of any earlier one
    /// for the same textures.
    CreateTexturesBindGroup { group: TexturesBindGroup },
    /// Take the next image of the surface to draw on.
    AcquireSurfaceTexture,
    /// Open the render pass: clear the color to `clear_color` (red, green,
    /// blue, alpha as bits of double-precision numbers) and the depth to
    /// `clear_depth` (bits of a single-precision number).
    BeginRenderPass { clear_color: [u64; 4], clear_depth: u32 },
    /// Bind the render pipeline.
    SetPipeline,
    /// Write `contents` over the local buffer of the pool slot `slot`.
    WriteLocalBuffer { slot: usize, contents: LocalBuffer },
    /// Bind the binding object of the pool slot `slot` as group 0.
    SetBuffersBindGroup { slot: usize },
    /// Bind the binding object of the textures as group 1.
    SetTexturesBindGroup { group: TexturesBindGroup },
    /// Bind the whole vertex buffer of the mesh at slot 0.
    SetVertexBuffer { mesh_id: ResourceId<Mesh> },
    /// Bind the whole index buffer of the mesh, with 32-bit indices.
    SetIndexBuffer { mesh_id: ResourceId<Mesh> },
    /// Draw the indices from 0 up to `index_count`, `instance_count`
    /// times.
    DrawIndexed { index_count: u32, instance_count: u32 },
    /// Close the render pass.
    EndRenderPass,
    /// Hand the recorded commands to the device's queue.
    Submit,
    /// Show the image of the surface.
    Present,
}

/// The color that a frame starts from: red 0.1, green 0.2, blue 0.3,
/// alpha 1, as bits of double-precision numbers.
pub open spec fn background() -> [u64; 4] {
    [0x3FB9_9999_9999_999A, 0x3FC9_9999_9999_999A, 0x3FD3_3333_3333_3333, 0x3FF0_0000_0000_0000]
}

/// The color that a frame starts from.
pub fn clear_color() -> (color: [u64; 4])
    ensures
        color == background(),
{
    [0x3FB9_9999_9999_999A, 0x3FC9_9999_9999_999A, 0x3FD3_3333_3333_3333, 0x3FF0_0000_0000_0000]
}

/// The depth that a frame starts from, the farthest: the bits of the
/// single-precision number 1.
pub const DEPTH_FAR: u32 = 0x3F80_0000;

} // verus!
