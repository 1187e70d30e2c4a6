/// Byte images of the values that are handed to the graphics device.
pub mod buffer;
/// Contains data for typical meshes.
pub mod default_meshes;
/// Vertices, indices and the buffers of a mesh.
pub mod mesh;
/// The render context: what a frame asks of the graphics device.
pub mod render_context;
/// Textures and the decoding of images.
pub mod texture;

pub use mesh::{Mesh, MeshData, MeshId, Vertex};
pub use texture::{Texture, TextureId};
pub use render_context::{BasicDiffuseMaterial, Material, RenderOperation, TextureParameters};
