use crate::graphics::mesh::{vertex_words, Vertex, VERTEX_STRIDE};
use crate::graphics::texture::TextureFormat;
use vstd::prelude::*;

verus! {

/// What a vertex attribute is made of.
#[derive(Clone, Copy, Debug, PartialEq, Eq, Structural)]
pub enum VertexFormat {
    /// Two single-precision numbers.
    Float32x2,
    /// Three single-precision numbers.
    Float32x3,
}

impl VertexFormat {
    /// The number of single-precision numbers of the format.
    pub open spec fn components(self) -> nat {
        match self {
            VertexFormat::Float32x2 => 2,
            VertexFormat::Float32x3 => 3,
        }
    }

    /// The number of bytes of the format.
    pub fn size(self) -> (size: u64)
        ensures
            size == 4 * self.components(),
    {
        match self {
            VertexFormat::Float32x2 => 8,
            VertexFormat::Float32x3 => 12,
        }
    }
}

/// An input of the vertex shader, and where each vertex holds it.
#[derive(Clone, Copy, Debug, PartialEq, Eq, Structural)]
pub struct VertexAttribute {
    pub format: VertexFormat,
    /// The byte at which the attribute starts within a vertex.
    pub offset: u64,
    /// The number of the input in the shader.
    pub shader_location: u32,
}

/// How a vertex buffer is read: one vertex every `array_stride` bytes.
#[derive(Debug)]
pub struct VertexBufferLayout {
    pub array_stride: u64,
    pub attributes: Vec<VertexAttribute>,
}

/// The number of bytes that `formats` take when they follow each other.
pub open spec fn packed_size(formats: Seq<(u32, VertexFormat)>) -> nat
    decreases formats.len(),
{
    if formats.len() == 0 {
        0
    } else {
        packed_size(formats.drop_last()) + 4 * formats.last().1.components()
    }
}

/// The attributes with the locations and formats of `formats`, each
/// starting where the one before it ends.
pub open spec fn packed_attributes(formats: Seq<(u32, VertexFormat)>) -> Seq<VertexAttribute>
    decreases formats.len(),
{
    if formats.len() == 0 {
        Seq::empty()
    } else {
        packed_attributes(formats.drop_last()).push(
            VertexAttribute {
                format: formats.last().1,
                offset: packed_size(formats.drop_last()) as u64,
                shader_location: formats.last().0,
            },
        )
    }
}

/// `formats` take at most twelve bytes each.
pub proof fn lemma_packed_size_bound(formats: Seq<(u32, VertexFormat)>)
    ensures
        packed_size(formats) <= 12 * formats.len(),
    decreases formats.len(),
{
    if formats.len() > 0 {
        lemma_packed_size_bound(formats.drop_last());
    }
}

/// Lays attributes out one after the other, without gaps.
pub fn vertex_attr_array(formats: &[(u32, VertexFormat)]) -> (attributes: Vec<VertexAttribute>)
    requires
        12 * formats@.len() <= u64::MAX,
    ensures
        attributes@ == packed_attributes(formats@),
{
    let mut attributes: Vec<VertexAttribute> = Vec::new();
    let mut offset: u64 = 0;
    let mut done: usize = 0;
    while done < formats.len()
        invariant
            done <= formats.len(),
            12 * formats@.len() <= u64::MAX,
            offset == packed_size(formats@.take(done as int)),
            attributes@ == packed_attributes(formats@.take(done as int)),
        decreases formats.len() - done,
    {
        let (shader_location, format) = formats[done];
        proof {
            assert(formats@.take(done + 1).drop_last() =~= formats@.take(done as int));
            lemma_packed_size_bound(formats@.take(done + 1));
        }
        attributes.push(VertexAttribute { format, offset, shader_location });
        offset = offset + format.size();
        done = done + 1;
    }
    assert(formats@.take(done as int) =~= formats@);
    attributes
}

/// The formats of the inputs of the vertex shader: the position at
/// location 0, the normal at location 1, the texture coordinate at
/// location 2.
pub open spec fn vertex_inputs() -> Seq<(u32, VertexFormat)> {
    seq![
        (0u32, VertexFormat::Float32x3),
        (1u32, VertexFormat::Float32x3),
        (2u32, VertexFormat::Float32x2),
    ]
}

/// How the vertex buffer of a mesh is read: a vertex every 32 bytes, with
/// the position at byte 0, the normal at byte 12 and the texture
/// coordinate at byte 24.
pub fn vertex_buffer_layout() -> (layout: VertexBufferLayout)
    ensures
        layout.array_stride == VERTEX_STRIDE,
        layout.attributes@ == packed_attributes(vertex_inputs()),
        layout.attributes@ == seq![
            VertexAttribute { format: VertexFormat::Float32x3, offset: 0, shader_location: 0 },
            VertexAttribute { format: VertexFormat::Float32x3, offset: 12, shader_location: 1 },
            VertexAttribute { format: VertexFormat::Float32x2, offset: 24, shader_location: 2 },
        ],
{
    let formats = [
        (0u32, VertexFormat::Float32x3),
        (1u32, VertexFormat::Float32x3),
        (2u32, VertexFormat::Float32x2),
    ];
    let attributes = vertex_attr_array(formats.as_slice());
    proof {
        lemma_vertex_inputs_packed();
    }
    VertexBufferLayout { array_stride: 32, attributes }
}

/// The inputs of the vertex shader fill a vertex exactly.
pub proof fn lemma_vertex_inputs_packed()
    ensures
        packed_size(vertex_inputs()) == VERTEX_STRIDE,
        packed_attributes(vertex_inputs()) == seq![
            VertexAttribute { format: VertexFormat::Float32x3, offset: 0, shader_location: 0 },
            VertexAttribute { format: VertexFormat::Float32x3, offset: 12, shader_location: 1 },
            VertexAttribute { format: VertexFormat::Float32x2, offset: 24, shader_location: 2 },
        ],
{
    let all = vertex_inputs();
    let two = all.drop_last();
    let one = two.drop_last();
    let none = one.drop_last();
    assert(none.len() == 0);
    assert(packed_size(none) == 0);
    assert(packed_size(one) == 12);
    assert(packed_size(two) == 24);
    assert(packed_size(all) == 32);
    assert(packed_attributes(none) =~= Seq::<VertexAttribute>::empty());
    assert(packed_attributes(one) =~= seq![
        VertexAttribute { format: VertexFormat::Float32x3, offset: 0, shader_location: 0 },
    ]);
    assert(packed_attributes(two) =~= seq![
        VertexAttribute { format: VertexFormat::Float32x3, offset: 0, shader_location: 0 },
        VertexAttribute { format: VertexFormat::Float32x3, offset: 12, shader_location: 1 },
    ]);
    assert(packed_attributes(all) =~= seq![
        VertexAttribute { format: VertexFormat::Float32x3, offset: 0, shader_location: 0 },
        VertexAttribute { format: VertexFormat::Float32x3, offset: 12, shader_location: 1 },
        VertexAttribute { format: VertexFormat::Float32x2, offset: 24, shader_location: 2 },
    ]);
}

/// The word that `attribute` reads as its component `component` in the
/// vertex at place `i` of a vertex buffer that holds `vertices`.
pub open spec fn attribute_word(
    vertices: Seq<Vertex>,
    i: int,
    attribute: VertexAttribute,
    component: int,
) -> u32 {
    vertex_words(vertices)[8 * i + attribute.offset as int / 4 + component]
}

/// The vertex buffer of a mesh holds each vertex as the layout reads it:
/// in every vertex the attribute at location 0 reads the position, the one
/// at location 1 the normal, and the one at location 2 the texture
/// coordinate.
pub proof fn lemma_layout_reads_vertices(vertices: Seq<Vertex>, i: int, component: int)
    requires
        0 <= i < vertices.len(),
        0 <= component < 3,
    ensures
        vertex_words(vertices).len() == 8 * vertices.len(),
        attribute_word(vertices, i, packed_attributes(vertex_inputs())[0], component)
            == vertices[i].position[component],
        attribute_word(vertices, i, packed_attributes(vertex_inputs())[1], component)
            == vertices[i].normal[component],
        component < 2 ==> attribute_word(
            vertices,
            i,
            packed_attributes(vertex_inputs())[2],
            component,
        ) == vertices[i].texture_coordinates[component],
{
    lemma_vertex_inputs_packed();
}

/// The stages of the pipeline that see a binding.
#[derive(Clone, Copy, Debug, PartialEq, Eq, Structural)]
pub enum ShaderStages {
    /// The vertex shader and the fragment shader.
    VertexFragment,
    /// The fragment shader.
    Fragment,
}

/// What stands at a binding.
#[derive(Clone, Copy, Debug, PartialEq, Eq, Structural)]
pub enum BindingType {
    /// A uniform buffer, bound whole.
    UniformBuffer,
    /// A sampler that filters.
    FilteringSampler,
    /// A two-dimensional texture of numbers that can be filtered.
    FilterableTexture2d,
}

/// One binding of a bind group.
#[derive(Clone, Copy, Debug, PartialEq, Eq, Structural)]
pub struct BindGroupLayoutEntry {
    pub binding: u32,
    pub visibility: ShaderStages,
    pub ty: BindingType,
}

/// The bindings of the buffers: the global buffer at 0 and the local
/// buffer at 1, both for the vertex and the fragment shader.
pub open spec fn buffers_bind_group_layout() -> Seq<BindGroupLayoutEntry> {
    seq![
        BindGroupLayoutEntry {
            binding: 0,
            visibility: ShaderStages::VertexFragment,
            ty: BindingType::UniformBuffer,
        },
        BindGroupLayoutEntry {
            binding: 1,
            visibility: ShaderStages::VertexFragment,
            ty: BindingType::UniformBuffer,
        },
    ]
}

/// The bindings of the textures: the sampler at 0 and the texture at 1,
/// both for the fragment shader.
pub open spec fn textures_bind_group_layout() -> Seq<BindGroupLayoutEntry> {
    seq![
        BindGroupLayoutEntry {
            binding: 0,
            visibility: ShaderStages::Fragment,
            ty: BindingType::FilteringSampler,
        },
        BindGroupLayoutEntry {
            binding: 1,
            visibility: ShaderStages::Fragment,
            ty: BindingType::FilterableTexture2d,
        },
    ]
}

/// Creates the bind group layout for the buffers.
pub fn create_buffers_bind_group_layout() -> (entries: Vec<BindGroupLayoutEntry>)
    ensures
        entries@ == buffers_bind_group_layout(),
{
    let mut entries: Vec<BindGroupLayoutEntry> = Vec::new();
    // globals
    entries.push(
        BindGroupLayoutEntry {
            binding: 0,
            visibility: ShaderStages::VertexFragment,
            ty: BindingType::UniformBuffer,
        },
    );
    // locals
    entries.push(
        BindGroupLayoutEntry {
            binding: 1,
            visibility: ShaderStages::VertexFragment,
            ty: BindingType::UniformBuffer,
        },
    );
    entries
}

/// Creates the bind group layout for the textures.
pub fn create_textures_bind_group_layout() -> (entries: Vec<BindGroupLayoutEntry>)
    ensures
        entries@ == textures_bind_group_layout(),
{
    let mut entries: Vec<BindGroupLayoutEntry> = Vec::new();
    // sampler
    entries.push(
        BindGroupLayoutEntry {
            binding: 0,
            visibility: ShaderStages::Fragment,
            ty: BindingType::FilteringSampler,
        },
    );
    // texture
    entries.push(
        BindGroupLayoutEntry {
            binding: 1,
            visibility: ShaderStages::Fragment,
            ty: BindingType::FilterableTexture2d,
        },
    );
    entries
}

/// The bind groups of the pipeline.
#[derive(Clone, Copy, Debug, PartialEq, Eq, Structural)]
pub enum BindGroupKind {
    /// The global buffer and the local buffer of an object.
    Buffers,
    /// The sampler and the textures of a material.
    Textures,
}

/// The group number at which the buffers are bound.
pub const BUFFERS_GROUP: u32 = 0;

/// The group number at which the textures are bound.
pub const TEXTURES_GROUP: u32 = 1;

/// Create the layout for the render pipeline: the bind groups in the
/// order of their group numbers.
pub fn create_render_pipeline_layout() -> (groups: [BindGroupKind; 2])
    ensures
        groups[BUFFERS_GROUP as int] == BindGroupKind::Buffers,
        groups[TEXTURES_GROUP as int] == BindGroupKind::Textures,
{
    [BindGroupKind::Buffers, BindGroupKind::Textures]
}

/// How a depth is compared with the one that is there.
#[derive(Clone, Copy, Debug, PartialEq, Eq, Structural)]
pub enum CompareFunction {
    /// The new depth passes if it is less than or equal to the old one.
    LessEqual,
}

/// How a color is put over the one that is there.
#[derive(Clone, Copy, Debug, PartialEq, Eq, Structural)]
pub enum BlendState {
    /// The new color counts whole, the old one as far as the new one lets
    /// it through.
    PremultipliedAlphaBlending,
}

/// The format of the images of the surface.
#[derive(Clone, Copy, Debug, PartialEq, Eq, Structural)]
pub enum SurfaceFormat {
    /// Blue, green, red and alpha, 8 bits each, colors in sRGB.
    Bgra8UnormSrgb,
}

/// What the render pipeline is made with.
#[derive(Debug)]
pub struct RenderPipelineDescriptor {
    /// The name of the vertex shader.
    pub vertex_entry_point: &'static str,
    /// The name of the fragment shader.
    pub fragment_entry_point: &'static str,
    /// How the vertex buffer is read.
    pub vertex_buffer: VertexBufferLayout,
    /// The format of the color target.
    pub target_format: SurfaceFormat,
    pub blend: BlendState,
    /// Whether triangles that face away are left out.
    pub cull_back_faces: bool,
    pub depth_format: TextureFormat,
    pub depth_write_enabled: bool,
    pub depth_compare: CompareFunction,
    /// The number of samples for each texel.
    pub sample_count: u32,
}

/// Creates the render pipeline: triangle lists whose front faces wind
/// counter-clockwise, all of them filled and none left out, drawn over
/// the surface with a depth test that lets the nearer and the equal pass.
pub fn create_render_pipeline() -> (pipeline: RenderPipelineDescriptor)
    ensures
        pipeline.vertex_entry_point@ == "vs_main"@,
        pipeline.fragment_entry_point@ == "fs_main"@,
        pipeline.vertex_buffer.array_stride == VERTEX_STRIDE,
        pipeline.vertex_buffer.attributes@ == packed_attributes(vertex_inputs()),
        pipeline.target_format == SurfaceFormat::Bgra8UnormSrgb,
        pipeline.blend == BlendState::PremultipliedAlphaBlending,
        !pipeline.cull_back_faces,
        pipeline.depth_format == TextureFormat::Depth32Float,
        pipeline.depth_write_enabled,
        pipeline.depth_compare == CompareFunction::LessEqual,
        pipeline.sample_count == 1,
{
    RenderPipelineDescriptor {
        vertex_entry_point: "vs_main",
        fragment_entry_point: "fs_main",
        vertex_buffer: vertex_buffer_layout(),
        target_format: SurfaceFormat::Bgra8UnormSrgb,
        blend: BlendState::PremultipliedAlphaBlending,
        cull_back_faces: false,
        depth_format: TextureFormat::Depth32Float,
        depth_write_enabled: true,
        depth_compare: CompareFunction::LessEqual,
        sample_count: 1,
    }
}

} // verus!
