use crate::graphics::mesh::Mesh;
use crate::graphics::texture::Texture;
use crate::util::repository::ResourceId;
use vstd::prelude::*;
use vstd::std_specs::convert::FromSpecImpl;

verus! {

/// The bits of the single-precision number 1.
pub const ONE: u32 = 0x3F80_0000;

/// The window that shows a whole texture: offset (0, 0), width 1, height 1.
pub open spec fn whole_texture() -> [u32; 4] {
    [0, 0, ONE, ONE]
}

/// The window that [`RenderOperation::textured_mesh`] uses where it is
/// given none: offset (0, 0), width 0, height 0.
pub open spec fn empty_window() -> [u32; 4] {
    [0, 0, 0, 0]
}

/// Structure to represent a rendering operation that can be executed by a
/// render context.
///
/// Matrices, colors and windows hold single-precision numbers as their bit
/// patterns; a matrix holds them column by column.
#[derive(Clone, Copy)]
pub struct RenderOperation {
    /// Transformation to apply to the mesh.
    pub transform: [[u32; 4]; 4],
    /// Mesh to render.
    pub mesh_id: ResourceId<Mesh>,
    /// Material to use with the mesh.
    pub material: Material,
}

/// Types of materials that can be used.
#[derive(Clone, Copy)]
pub enum Material {
    BasicDiffuse(BasicDiffuseMaterial),
}

/// Material to apply a texture multiplied by a solid color to a mesh.
#[derive(Clone, Copy)]
pub struct BasicDiffuseMaterial {
    /// Color to apply: red, green, blue, alpha.
    pub color: [u32; 4],
    /// Texture to apply.
    pub texture_parameters: Option<TextureParameters>,
}

/// Parameters to use when applying a texture.
#[derive(Clone, Copy)]
pub struct TextureParameters {
    /// Texture to use.
    pub texture_id: ResourceId<Texture>,
    /// Sub section of texture to use: u offset, v offset, u width, v height.
    pub uv_window: [u32; 4],
}

impl RenderOperation {
    /// Creates a [`RenderOperation`] to render a mesh with a solid color.
    pub fn colored_mesh(transform: [[u32; 4]; 4], mesh_id: ResourceId<Mesh>, color: [u32; 4]) -> (operation:
        RenderOperation)
        ensures
            operation.transform == transform,
            operation.mesh_id == mesh_id,
            operation.material == Material::BasicDiffuse(
                BasicDiffuseMaterial { color, texture_parameters: None },
            ),
    {
        RenderOperation {
            transform,
            mesh_id,
            material: Material::BasicDiffuse(
                BasicDiffuseMaterial { color, texture_parameters: None },
            ),
        }
    }

    /// Creates a [`RenderOperation`] to render a mesh with a texture
    /// multiplied by a color. Without a window the operation samples the
    /// empty window.
    pub fn textured_mesh(
        transform: [[u32; 4]; 4],
        mesh_id: ResourceId<Mesh>,
        texture_id: ResourceId<Texture>,
        uv_window: Option<[u32; 4]>,
        color: [u32; 4],
    ) -> (operation: RenderOperation)
        ensures
            operation.transform == transform,
            operation.mesh_id == mesh_id,
            operation.material == Material::BasicDiffuse(
                BasicDiffuseMaterial {
                    color,
                    texture_parameters: Some(
                        TextureParameters {
                            texture_id,
                            uv_window: match uv_window {
                                Some(window) => window,
                                None => empty_window(),
                            },
                        },
                    ),
                },
            ),
    {
        let window: [u32; 4] = match uv_window {
            Some(window) => window,
            None => [0, 0, 0, 0],
        };
        RenderOperation {
            transform,
            mesh_id,
            material: Material::BasicDiffuse(
                BasicDiffuseMaterial {
                    color,
                    texture_parameters: Some(TextureParameters { texture_id, uv_window: window }),
                },
            ),
        }
    }
}

impl Default for TextureParameters {
    /// The whole of the texture in slot 0, which is meant to be blank
    /// white.
    fn default() -> (parameters: Self)
        ensures
            parameters.texture_id.index == 0,
            parameters.uv_window == whole_texture(),
    {
        TextureParameters { texture_id: ResourceId::new(0), uv_window: [0, 0, ONE, ONE] }
    }
}

impl TextureParameters {
    /// Creates new texture parameters where the window defaults to the
    /// whole texture.
    pub fn new(texture: ResourceId<Texture>, uv_window: Option<[u32; 4]>) -> (parameters: Self)
        ensures
            parameters.texture_id == texture,
            parameters.uv_window == match uv_window {
                Some(window) => window,
                None => whole_texture(),
            },
    {
        let window: [u32; 4] = match uv_window {
            Some(window) => window,
            None => [0, 0, ONE, ONE],
        };
        TextureParameters { texture_id: texture, uv_window: window }
    }
}

/// Raw render operation that is easier to parse: what a material asks for,
/// as lists with one entry for each texture.
#[derive(Clone, Copy)]
pub struct RawRenderOperation {
    pub transform: [[u32; 4]; 4],
    pub mesh_id: ResourceId<Mesh>,
    pub texture_group_ids: [ResourceId<Texture>; 1],
    pub uv_windows: [[u32; 4]; 1],
    pub colors: [[u32; 4]; 1],
}

/// The texture that a material samples: its own, or else the one in slot 0.
pub open spec fn material_texture(material: Material) -> ResourceId<Texture> {
    match material {
        Material::BasicDiffuse(diffuse) => match diffuse.texture_parameters {
            Some(parameters) => parameters.texture_id,
            None => ResourceId { _phantom: std::marker::PhantomData, index: 0 },
        },
    }
}

/// The window that a material samples: its own, or else the whole texture.
pub open spec fn material_window(material: Material) -> [u32; 4] {
    match material {
        Material::BasicDiffuse(diffuse) => match diffuse.texture_parameters {
            Some(parameters) => parameters.uv_window,
            None => whole_texture(),
        },
    }
}

/// The color of a material.
pub open spec fn material_color(material: Material) -> [u32; 4] {
    match material {
        Material::BasicDiffuse(diffuse) => diffuse.color,
    }
}

/// The raw form of a render operation.
pub open spec fn raw_operation(operation: RenderOperation) -> RawRenderOperation {
    RawRenderOperation {
        transform: operation.transform,
        mesh_id: operation.mesh_id,
        texture_group_ids: [material_texture(operation.material)],
        uv_windows: [material_window(operation.material)],
        colors: [material_color(operation.material)],
    }
}

impl From<RenderOperation> for RawRenderOperation {
    fn from(value: RenderOperation) -> (raw: Self) {
        let (texture_group_ids, uv_windows, colors) = match value.material {
            Material::BasicDiffuse(BasicDiffuseMaterial { color, texture_parameters }) => {
                let parameters = match texture_parameters {
                    Some(parameters) => parameters,
                    None => TextureParameters::default(),
                };
                ([parameters.texture_id], [parameters.uv_window], [color])
            },
        };
        RawRenderOperation {
            transform: value.transform,
            mesh_id: value.mesh_id,
            texture_group_ids,
            uv_windows,
            colors,
        }
    }
}

impl FromSpecImpl<RenderOperation> for RawRenderOperation {
    open spec fn obeys_from_spec() -> bool {
        true
    }

    open spec fn from_spec(value: RenderOperation) -> Self {
        raw_operation(value)
    }
}

} // verus!
