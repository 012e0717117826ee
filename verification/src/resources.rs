//! CPU-side descriptions of the GPU resources the engine owns.
//!
//! Meshes carry their raw vertex words and indices, textures their decoded
//! RGBA8 pixels, instances their fixed-point transform, and pipelines an
//! exact description of the shader interface and vertex layouts. The GPU
//! layer uploads these descriptions; everything the engine validates or
//! derives about them is decided here.

use crate::error::EngineError;
use crate::fixed::{Mat4Fp, Vec3Fp, FP_ONE};
use vstd::prelude::*;

verus! {

/// Number of 32-bit words in one vertex record: three for the position,
/// two for the texture coordinates.
pub const VERTEX_STRIDE: usize = 5;

/// Number of bytes in one vertex record.
pub const VERTEX_STRIDE_BYTES: u32 = 20;

/// Number of bytes in one instance transform record.
pub const INSTANCE_STRIDE_BYTES: u32 = 64;

/// Whether raw vertex words and indices form a valid mesh: the vertex
/// data is a nonempty whole number of records, and every index points at
/// an existing record.
pub open spec fn mesh_data_valid(vertex_words: Seq<u32>, index_data: Seq<u16>) -> bool {
    &&& vertex_words.len() > 0
    &&& vertex_words.len() as int % (VERTEX_STRIDE as int) == 0
    &&& index_data.len() <= u32::MAX
    &&& forall|i: int|
        0 <= i < index_data.len() ==> (index_data[i] as int) < vertex_words.len() as int / (
        VERTEX_STRIDE as int)
}

/// One mesh: raw vertex records (as 32-bit words) and triangle indices,
/// immutable after construction.
#[derive(Clone, Debug, PartialEq, Eq)]
pub struct Mesh {
    pub vertex_words: Vec<u32>,
    pub index_data: Vec<u16>,
}

impl Mesh {
    /// The stored data passed construction-time validation.
    pub open spec fn wf(self) -> bool {
        mesh_data_valid(self.vertex_words@, self.index_data@)
    }

    /// Number of vertex records.
    pub open spec fn vertex_count(self) -> int {
        self.vertex_words@.len() as int / (VERTEX_STRIDE as int)
    }

    /// Number of indices drawn.
    pub open spec fn index_count(self) -> int {
        self.index_data@.len() as int
    }

    /// Builds a mesh after validating the stride invariant and the index
    /// range: vertex data whose length is zero or not a multiple of the
    /// stride, or an index past the last record, is a construction error,
    /// never a panic.
    pub fn new(vertex_words: Vec<u32>, index_data: Vec<u16>) -> (result: Result<
        Mesh,
        EngineError,
    >)
        ensures
            result is Ok <==> mesh_data_valid(vertex_words@, index_data@),
            result matches Ok(mesh) ==> mesh.vertex_words@ == vertex_words@
                && mesh.index_data@ == index_data@ && mesh.wf(),
            result is Err ==> result == Err::<Mesh, EngineError>(EngineError::InvalidVertexData),
    {
        if vertex_words.len() == 0 || vertex_words.len() % VERTEX_STRIDE != 0 {
            return Err(EngineError::InvalidVertexData);
        }
        if index_data.len() > u32::MAX as usize {
            return Err(EngineError::InvalidVertexData);
        }
        let vertex_count = vertex_words.len() / VERTEX_STRIDE;
        let mut i: usize = 0;
        while i < index_data.len()
            invariant
                0 <= i <= index_data.len(),
                vertex_count == vertex_words@.len() as int / (VERTEX_STRIDE as int),
                forall|j: int| 0 <= j < i ==> (index_data@[j] as int) < vertex_count,
            decreases index_data.len() - i,
        {
            if index_data[i] as usize >= vertex_count {
                return Err(EngineError::InvalidVertexData);
            }
            i = i + 1;
        }
        Ok(Mesh { vertex_words, index_data })
    }

    /// Number of indices, for the indexed draw.
    pub fn num_indices(&self) -> (n: u32)
        requires
            self.wf(),
        ensures
            n == self.index_count(),
    {
        self.index_data.len() as u32
    }

    /// The unit square: four position/uv records and two triangles. The
    /// word values are the IEEE 754 bit patterns of `1.0`, `-1.0` and
    /// `0.0`.
    pub fn new_square() -> (mesh: Mesh)
        ensures
            mesh.wf(),
            mesh.vertex_words@ =~= square_vertex_words(),
            mesh.index_data@ =~= square_indices(),
    {
        let one: u32 = 0x3F80_0000;
        let neg_one: u32 = 0xBF80_0000;
        let zero: u32 = 0;
        let mut vertex_words: Vec<u32> = Vec::new();
        vertex_words.push(one);
        vertex_words.push(one);
        vertex_words.push(zero);
        vertex_words.push(one);
        vertex_words.push(zero);
        vertex_words.push(neg_one);
        vertex_words.push(one);
        vertex_words.push(zero);
        vertex_words.push(zero);
        vertex_words.push(zero);
        vertex_words.push(neg_one);
        vertex_words.push(neg_one);
        vertex_words.push(zero);
        vertex_words.push(zero);
        vertex_words.push(one);
        vertex_words.push(one);
        vertex_words.push(neg_one);
        vertex_words.push(zero);
        vertex_words.push(one);
        vertex_words.push(one);
        let mut index_data: Vec<u16> = Vec::new();
        index_data.push(0);
        index_data.push(1);
        index_data.push(2);
        index_data.push(2);
        index_data.push(3);
        index_data.push(0);
        let mesh = Mesh { vertex_words, index_data };
        assert(mesh.vertex_words@.len() == 20);
        assert(mesh.vertex_words@.len() as int / (VERTEX_STRIDE as int) == 4);
        mesh
    }
}

/// The vertex words of the unit square, corner order: top right, top
/// left, bottom left, bottom right.
pub open spec fn square_vertex_words() -> Seq<u32> {
    seq![
        0x3F80_0000u32, 0x3F80_0000, 0, 0x3F80_0000, 0,
        0xBF80_0000, 0x3F80_0000, 0, 0, 0,
        0xBF80_0000, 0xBF80_0000, 0, 0, 0x3F80_0000,
        0x3F80_0000, 0xBF80_0000, 0, 0x3F80_0000, 0x3F80_0000,
    ]
}

/// The triangle indices of the unit square.
pub open spec fn square_indices() -> Seq<u16> {
    seq![0u16, 1, 2, 2, 3, 0]
}

/// The fixed-point transform of an instance at `position` scaled by
/// `scale`: `translation * nonuniform_scale`, column-major, so the scale
/// sits on the diagonal and the position in the last column.
pub open spec fn instance_raw_spec(position: Vec3Fp, scale: Vec3Fp) -> Seq<i64> {
    seq![
        scale.x, 0, 0, 0,
        0, scale.y, 0, 0,
        0, 0, scale.z, 0,
        position.x, position.y, position.z, FP_ONE,
    ]
}

/// One drawn instance: a position, a nonuniform scale, and the derived
/// transform matrix cached in the form the GPU consumes.
#[derive(Clone, Debug)]
pub struct Instance {
    pub position: Vec3Fp,
    pub scale: Vec3Fp,
    pub raw: Mat4Fp,
}

impl Instance {
    /// The cached matrix is exactly the derived transform.
    pub open spec fn wf(self) -> bool {
        self.raw.m@ == instance_raw_spec(self.position, self.scale)
    }

    /// Builds an instance and caches its transform.
    pub fn new(position: Vec3Fp, scale: Vec3Fp) -> (instance: Instance)
        ensures
            instance.wf(),
            instance.position == position,
            instance.scale == scale,
    {
        let mut m: Vec<i64> = Vec::new();
        m.push(scale.x);
        m.push(0);
        m.push(0);
        m.push(0);
        m.push(0);
        m.push(scale.y);
        m.push(0);
        m.push(0);
        m.push(0);
        m.push(0);
        m.push(scale.z);
        m.push(0);
        m.push(position.x);
        m.push(position.y);
        m.push(position.z);
        m.push(FP_ONE);
        let instance = Instance { position, scale, raw: Mat4Fp { m } };
        assert(instance.raw.m@ =~= instance_raw_spec(position, scale));
        instance
    }
}

/// Names what the image decoder returns for given encoded bytes: `None`
/// where decoding fails, otherwise the width, height and RGBA8 pixel
/// buffer. The decoder's output is a function of the bytes alone.
pub uninterp spec fn rgba_decode_of(bytes: Seq<u8>) -> Option<(u32, u32, Seq<u8>)>;

/// Relies on image::load_from_memory followed by DynamicImage::to_rgba8:
/// decoding guesses the container format from the bytes and converts the
/// pixels to RGBA8, four bytes per pixel, row-major.
#[verifier::external_body]
pub(crate) fn decode_rgba(bytes: &[u8]) -> (r: Option<(u32, u32, Vec<u8>)>)
    ensures
        r is Some <==> rgba_decode_of(bytes@) is Some,
        r matches Some(t) ==> rgba_decode_of(bytes@) == Some((t.0, t.1, t.2@)) && t.2@.len() == 4
            * t.0 * t.1,
{
    match image::load_from_memory(bytes) {
        Ok(img) => {
            let rgba = img.to_rgba8();
            let width = rgba.width();
            let height = rgba.height();
            Some((width, height, rgba.into_raw()))
        },
        Err(_) => None,
    }
}

/// One texture: decoded RGBA8 pixels and their dimensions, immutable
/// after creation.
#[derive(Clone, Debug, PartialEq, Eq)]
pub struct Texture {
    pub width: u32,
    pub height: u32,
    pub pixels: Vec<u8>,
}

impl Texture {
    /// The pixel buffer holds exactly four bytes per pixel.
    pub open spec fn wf(self) -> bool {
        self.pixels@.len() == 4 * self.width * self.height
    }

    /// Builds a texture from already-decoded pixels, validating that the
    /// buffer size matches the dimensions.
    pub fn from_raw(width: u32, height: u32, pixels: Vec<u8>) -> (result: Result<
        Texture,
        EngineError,
    >)
        ensures
            result is Ok <==> pixels@.len() == 4 * width * height,
            result matches Ok(t) ==> t.width == width && t.height == height && t.pixels@
                == pixels@ && t.wf(),
            result is Err ==> result == Err::<Texture, EngineError>(
                EngineError::InvalidTextureData,
            ),
    {
        proof {
            assert(0 <= 4 * (width as int) * (height as int) < u128::MAX) by (nonlinear_arith)
                requires
                    0 <= width <= u32::MAX,
                    0 <= height <= u32::MAX,
            ;
        }
        if (pixels.len() as u128) != 4u128 * (width as u128) * (height as u128) {
            return Err(EngineError::InvalidTextureData);
        }
        Ok(Texture { width, height, pixels })
    }

    /// Decodes encoded image bytes into a texture. Fails exactly where
    /// the decoder rejects the bytes.
    pub fn from_encoded(bytes: &[u8]) -> (result: Result<Texture, EngineError>)
        ensures
            result is Ok <==> rgba_decode_of(bytes@) is Some,
            result matches Ok(t) ==> rgba_decode_of(bytes@) == Some((t.width, t.height, t.pixels@))
                && t.wf(),
            result is Err ==> result == Err::<Texture, EngineError>(
                EngineError::InvalidTextureData,
            ),
    {
        match decode_rgba(bytes) {
            Some((width, height, pixels)) => {
                let t = Texture::from_raw(width, height, pixels);
                match t {
                    Ok(texture) => Ok(texture),
                    Err(_) => Err(EngineError::InvalidTextureData),
                }
            },
            None => Err(EngineError::InvalidTextureData),
        }
    }
}

/// The pixel formats the engine negotiates for surfaces and textures.
#[derive(Clone, Copy, Debug, PartialEq, Eq, Structural)]
pub enum TextureFormat {
    Rgba8Unorm,
    Rgba8UnormSrgb,
    Bgra8Unorm,
    Bgra8UnormSrgb,
}

/// Component layout of one vertex attribute.
#[derive(Clone, Copy, Debug, PartialEq, Eq, Structural)]
pub enum VertexFormat {
    Float32x2,
    Float32x3,
    Float32x4,
}

impl VertexFormat {
    /// Byte size of the attribute.
    pub open spec fn size_bytes_spec(self) -> int {
        match self {
            VertexFormat::Float32x2 => 8,
            VertexFormat::Float32x3 => 12,
            VertexFormat::Float32x4 => 16,
        }
    }
}

/// Whether a vertex buffer advances per vertex or per instance.
#[derive(Clone, Copy, Debug, PartialEq, Eq, Structural)]
pub enum VertexStepMode {
    Vertex,
    Instance,
}

/// One attribute within a vertex buffer layout.
#[derive(Clone, Copy, Debug, PartialEq, Eq, Structural)]
pub struct VertexAttribute {
    pub format: VertexFormat,
    pub offset: u32,
    pub shader_location: u32,
}

/// Layout of one vertex buffer: its stride, step rate, and attributes.
#[derive(Clone, Debug)]
pub struct VertexBufferLayoutDesc {
    pub array_stride: u32,
    pub step_mode: VertexStepMode,
    pub attributes: Vec<VertexAttribute>,
}

impl VertexBufferLayoutDesc {
    /// Every attribute lies within the stride.
    pub open spec fn wf(self) -> bool {
        forall|i: int|
            0 <= i < self.attributes@.len() ==> (#[trigger] self.attributes@[i]).offset
                + self.attributes@[i].format.size_bytes_spec() <= self.array_stride
    }
}

/// The attributes of the position/uv vertex buffer: the position at
/// offset zero, the texture coordinates after it.
pub open spec fn pos_uv_attributes_spec() -> Seq<VertexAttribute> {
    seq![
        VertexAttribute { format: VertexFormat::Float32x3, offset: 0, shader_location: 0 },
        VertexAttribute { format: VertexFormat::Float32x2, offset: 12, shader_location: 1 },
    ]
}

/// The attributes of the instance transform buffer: one matrix column
/// per shader location.
pub open spec fn instance_transform_attributes_spec() -> Seq<VertexAttribute> {
    seq![
        VertexAttribute { format: VertexFormat::Float32x4, offset: 0, shader_location: 5 },
        VertexAttribute { format: VertexFormat::Float32x4, offset: 16, shader_location: 6 },
        VertexAttribute { format: VertexFormat::Float32x4, offset: 32, shader_location: 7 },
        VertexAttribute { format: VertexFormat::Float32x4, offset: 48, shader_location: 8 },
    ]
}

/// Layout of the position/uv vertex buffer: one record per vertex, the
/// position at offset zero and the texture coordinates after it.
pub fn pos_uv_vertex_layout() -> (layout: VertexBufferLayoutDesc)
    ensures
        layout.wf(),
        layout.array_stride == VERTEX_STRIDE_BYTES,
        layout.step_mode == VertexStepMode::Vertex,
        layout.attributes@ == pos_uv_attributes_spec(),
{
    let mut attributes: Vec<VertexAttribute> = Vec::new();
    attributes.push(
        VertexAttribute { format: VertexFormat::Float32x3, offset: 0, shader_location: 0 },
    );
    attributes.push(
        VertexAttribute { format: VertexFormat::Float32x2, offset: 12, shader_location: 1 },
    );
    proof {
        assert(attributes@ =~= pos_uv_attributes_spec());
    }
    VertexBufferLayoutDesc {
        array_stride: VERTEX_STRIDE_BYTES,
        step_mode: VertexStepMode::Vertex,
        attributes,
    }
}

/// Layout of the instance transform buffer: one 4x4 matrix per instance,
/// advanced at instance rate, one column per shader location.
pub fn instance_transform_layout() -> (layout: VertexBufferLayoutDesc)
    ensures
        layout.wf(),
        layout.array_stride == INSTANCE_STRIDE_BYTES,
        layout.step_mode == VertexStepMode::Instance,
        layout.attributes@ == instance_transform_attributes_spec(),
{
    let mut attributes: Vec<VertexAttribute> = Vec::new();
    attributes.push(
        VertexAttribute { format: VertexFormat::Float32x4, offset: 0, shader_location: 5 },
    );
    attributes.push(
        VertexAttribute { format: VertexFormat::Float32x4, offset: 16, shader_location: 6 },
    );
    attributes.push(
        VertexAttribute { format: VertexFormat::Float32x4, offset: 32, shader_location: 7 },
    );
    attributes.push(
        VertexAttribute { format: VertexFormat::Float32x4, offset: 48, shader_location: 8 },
    );
    proof {
        assert(attributes@ =~= instance_transform_attributes_spec());
    }
    VertexBufferLayoutDesc {
        array_stride: INSTANCE_STRIDE_BYTES,
        step_mode: VertexStepMode::Instance,
        attributes,
    }
}

/// Shader stage a binding is visible to.
#[derive(Clone, Copy, Debug, PartialEq, Eq, Structural)]
pub enum ShaderStage {
    Vertex,
    Fragment,
}

/// Kind of resource bound to a shader slot.
#[derive(Clone, Copy, Debug, PartialEq, Eq, Structural)]
pub enum BindingKind {
    UniformBuffer,
    Texture2d,
    Sampler,
}

/// One entry of a bind group layout.
#[derive(Clone, Copy, Debug, PartialEq, Eq, Structural)]
pub struct BindGroupLayoutEntryDesc {
    pub binding: u32,
    pub visibility: ShaderStage,
    pub kind: BindingKind,
}

/// The entries of the camera bind group layout: one uniform buffer
/// visible to the vertex stage.
pub open spec fn camera_layout_spec() -> Seq<BindGroupLayoutEntryDesc> {
    seq![
        BindGroupLayoutEntryDesc {
            binding: 0,
            visibility: ShaderStage::Vertex,
            kind: BindingKind::UniformBuffer,
        },
    ]
}

/// The entries of the diffuse texture bind group layout: a sampled 2D
/// texture and its sampler, both visible to the fragment stage.
pub open spec fn diffuse_texture_layout_spec() -> Seq<BindGroupLayoutEntryDesc> {
    seq![
        BindGroupLayoutEntryDesc {
            binding: 0,
            visibility: ShaderStage::Fragment,
            kind: BindingKind::Texture2d,
        },
        BindGroupLayoutEntryDesc {
            binding: 1,
            visibility: ShaderStage::Fragment,
            kind: BindingKind::Sampler,
        },
    ]
}

/// The camera bind group layout: one uniform buffer visible to the
/// vertex stage.
pub fn camera_bind_group_layout() -> (entries: Vec<BindGroupLayoutEntryDesc>)
    ensures
        entries@ == camera_layout_spec(),
{
    let mut entries: Vec<BindGroupLayoutEntryDesc> = Vec::new();
    entries.push(
        BindGroupLayoutEntryDesc {
            binding: 0,
            visibility: ShaderStage::Vertex,
            kind: BindingKind::UniformBuffer,
        },
    );
    proof {
        assert(entries@ =~= camera_layout_spec());
    }
    entries
}

/// The diffuse texture bind group layout: a sampled 2D texture and its
/// sampler, both visible to the fragment stage.
pub fn diffuse_texture_bind_group_layout() -> (entries: Vec<BindGroupLayoutEntryDesc>)
    ensures
        entries@ == diffuse_texture_layout_spec(),
{
    let mut entries: Vec<BindGroupLayoutEntryDesc> = Vec::new();
    entries.push(
        BindGroupLayoutEntryDesc {
            binding: 0,
            visibility: ShaderStage::Fragment,
            kind: BindingKind::Texture2d,
        },
    );
    entries.push(
        BindGroupLayoutEntryDesc {
            binding: 1,
            visibility: ShaderStage::Fragment,
            kind: BindingKind::Sampler,
        },
    );
    proof {
        assert(entries@ =~= diffuse_texture_layout_spec());
    }
    entries
}

/// How a texture is sampled.
#[derive(Clone, Copy, Debug, PartialEq, Eq, Structural)]
pub enum FilterMode {
    Linear,
    Nearest,
}

/// How texture coordinates outside the unit square are handled.
#[derive(Clone, Copy, Debug, PartialEq, Eq, Structural)]
pub enum AddressMode {
    ClampToEdge,
}

/// A sampler description.
#[derive(Clone, Copy, Debug, PartialEq, Eq, Structural)]
pub struct SamplerDesc {
    pub address_mode: AddressMode,
    pub mag_filter: FilterMode,
    pub min_filter: FilterMode,
    pub mipmap_filter: FilterMode,
}

/// The default sampler of registered textures: clamp-to-edge addressing,
/// linear magnification and nearest minification, chosen for crisp
/// pixel-art-style assets.
pub fn default_sampler_desc() -> (desc: SamplerDesc)
    ensures
        desc == (SamplerDesc {
            address_mode: AddressMode::ClampToEdge,
            mag_filter: FilterMode::Linear,
            min_filter: FilterMode::Nearest,
            mipmap_filter: FilterMode::Nearest,
        }),
{
    SamplerDesc {
        address_mode: AddressMode::ClampToEdge,
        mag_filter: FilterMode::Linear,
        min_filter: FilterMode::Nearest,
        mipmap_filter: FilterMode::Nearest,
    }
}

/// The compiled-shader interface the diffuse pipeline expects: the entry
/// point names and the vertex buffer layouts. The WGSL source text itself
/// is an opaque asset owned by the GPU layer.
#[derive(Clone, Debug)]
pub struct ShaderDesc {
    pub vertex_entry: &'static str,
    pub fragment_entry: &'static str,
    pub vertex_buffer_layouts: Vec<VertexBufferLayoutDesc>,
}

impl ShaderDesc {
    /// Both layouts are well-formed: the per-vertex records first, the
    /// per-instance transform second.
    pub open spec fn wf(self) -> bool {
        &&& self.vertex_buffer_layouts@.len() == 2
        &&& self.vertex_buffer_layouts@[0].wf()
        &&& self.vertex_buffer_layouts@[1].wf()
        &&& self.vertex_buffer_layouts@[0].step_mode == VertexStepMode::Vertex
        &&& self.vertex_buffer_layouts@[1].step_mode == VertexStepMode::Instance
    }

    /// The diffuse shader interface: entry points `vs_main` and
    /// `fs_main`, fed by the position/uv layout and the instance
    /// transform layout.
    pub fn new_diffuse_desc() -> (desc: ShaderDesc)
        ensures
            desc.wf(),
            is_diffuse_shader_desc(desc),
    {
        let mut vertex_buffer_layouts: Vec<VertexBufferLayoutDesc> = Vec::new();
        vertex_buffer_layouts.push(pos_uv_vertex_layout());
        vertex_buffer_layouts.push(instance_transform_layout());
        ShaderDesc { vertex_entry: "vs_main", fragment_entry: "fs_main", vertex_buffer_layouts }
    }
}

/// The full diffuse shader interface, pinned entry for entry: the
/// `vs_main`/`fs_main` entry points, the per-vertex position/uv layout
/// at its exact stride and attributes, and the per-instance transform
/// layout at its exact stride and attributes.
pub open spec fn is_diffuse_shader_desc(desc: ShaderDesc) -> bool {
    &&& desc.vertex_entry@ == "vs_main"@
    &&& desc.fragment_entry@ == "fs_main"@
    &&& desc.vertex_buffer_layouts@.len() == 2
    &&& desc.vertex_buffer_layouts@[0].array_stride == VERTEX_STRIDE_BYTES
    &&& desc.vertex_buffer_layouts@[0].step_mode == VertexStepMode::Vertex
    &&& desc.vertex_buffer_layouts@[0].attributes@ == pos_uv_attributes_spec()
    &&& desc.vertex_buffer_layouts@[1].array_stride == INSTANCE_STRIDE_BYTES
    &&& desc.vertex_buffer_layouts@[1].step_mode == VertexStepMode::Instance
    &&& desc.vertex_buffer_layouts@[1].attributes@ == instance_transform_attributes_spec()
}

/// An immutable description of one render pipeline: the shader
/// interface, the bind group layouts in binding order (camera first,
/// texture second), and the color target format.
#[derive(Clone, Debug)]
pub struct RenderPipelineDesc {
    pub shader: ShaderDesc,
    pub camera_layout: Vec<BindGroupLayoutEntryDesc>,
    pub texture_layout: Vec<BindGroupLayoutEntryDesc>,
    pub color_format: TextureFormat,
}

/// The full description of the diffuse render pipeline: the diffuse
/// shader interface, the camera layout in group 0 and the texture layout
/// in group 1, and the given color target format.
pub open spec fn is_diffuse_pipeline_desc(
    pipeline: RenderPipelineDesc,
    color_format: TextureFormat,
) -> bool {
    &&& is_diffuse_shader_desc(pipeline.shader)
    &&& pipeline.camera_layout@ == camera_layout_spec()
    &&& pipeline.texture_layout@ == diffuse_texture_layout_spec()
    &&& pipeline.color_format == color_format
}

} // verus!
