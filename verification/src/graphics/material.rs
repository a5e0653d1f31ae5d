//! Materials: a compiled pipeline bound to a target pixel format, and the
//! description from which the GPU backend compiles it.

use vstd::prelude::*;
use crate::graphics::texture::TextureFormat;
use crate::graphics::VERTEX_SIZE;

verus! {

/// A compiled graphics pipeline together with the pixel format it draws into.
///
/// Two materials are equal exactly when they name the same pipeline object and
/// the same format.
#[derive(Clone, Copy, Debug, PartialEq, Eq, Structural)]
pub struct Material {
    /// Identity of the pipeline object on the GPU.
    pub pipeline: u64,
    pub target_texture_format: TextureFormat,
}

/// Why a material could not be described.
#[derive(Clone, Copy, Debug, PartialEq, Eq, Structural)]
pub enum MaterialError {
    /// The device takes no shader format that the shaders are written in.
    ShaderFormatUnsupported,
}

/// The shader formats a device takes.
#[derive(Clone, Copy, Debug, PartialEq, Eq, Structural)]
pub struct ShaderFormats {
    pub spirv: bool,
    pub dxbc: bool,
    pub dxil: bool,
    pub msl: bool,
    pub metallib: bool,
}

/// The format that shader code is written in.
#[derive(Clone, Copy, Debug, PartialEq, Eq, Structural)]
pub enum ShaderFormat {
    Msl,
}

/// The stage of the pipeline that a shader runs in.
#[derive(Clone, Copy, Debug, PartialEq, Eq, Structural)]
pub enum ShaderStage {
    Vertex,
    Fragment,
}

/// The source of one shader and the resources it binds.
#[derive(Clone, Copy, Debug)]
pub struct ShaderSpecification {
    pub src: &'static str,
    pub uniform_buffer_count: u32,
    pub sampler_count: u32,
}

/// The shader pair of a material and the pixel format it draws into.
#[derive(Clone, Copy, Debug)]
pub struct MaterialSpecification {
    pub fragment: ShaderSpecification,
    pub vertex: ShaderSpecification,
    pub texture_format: TextureFormat,
}

/// One shader to compile.
#[derive(Clone, Copy, Debug)]
pub struct ShaderRequest {
    pub stage: ShaderStage,
    pub format: ShaderFormat,
    pub code: &'static str,
    pub entrypoint: &'static str,
    pub samplers: u32,
    pub uniform_buffers: u32,
}

/// What a colour is multiplied by before it is blended.
#[derive(Clone, Copy, Debug, PartialEq, Eq, Structural)]
pub enum BlendFactor {
    Zero,
    One,
    SrcAlpha,
    OneMinusSrcAlpha,
}

/// How the two weighted colours are combined.
#[derive(Clone, Copy, Debug, PartialEq, Eq, Structural)]
pub enum BlendOp {
    Add,
}

/// How a fragment is combined with the pixel that is already there.
#[derive(Clone, Copy, Debug, PartialEq, Eq, Structural)]
pub struct BlendState {
    pub enable_blend: bool,
    pub src_color_blendfactor: BlendFactor,
    pub dst_color_blendfactor: BlendFactor,
    pub color_blend_op: BlendOp,
    pub src_alpha_blendfactor: BlendFactor,
    pub dst_alpha_blendfactor: BlendFactor,
    pub alpha_blend_op: BlendOp,
}

/// How one field of a vertex is read.
#[derive(Clone, Copy, Debug, PartialEq, Eq, Structural)]
pub enum VertexElementFormat {
    /// Two single-precision numbers.
    Float2,
    /// Three single-precision numbers.
    Float3,
    /// Four bytes, each read as a number from 0 to 1.
    Ubyte4Norm,
}

/// Where one field of a vertex lies and which shader input it feeds.
#[derive(Clone, Copy, Debug, PartialEq, Eq, Structural)]
pub struct VertexAttribute {
    pub location: u32,
    pub buffer_slot: u32,
    /// Byte offset of the field in the vertex.
    pub offset: u32,
    pub format: VertexElementFormat,
}

/// Whether the vertex buffer advances with each vertex or each instance.
#[derive(Clone, Copy, Debug, PartialEq, Eq, Structural)]
pub enum VertexInputRate {
    Vertex,
    Instance,
}

/// How the vertex buffer is stepped through.
#[derive(Clone, Copy, Debug, PartialEq, Eq, Structural)]
pub struct VertexBufferDescription {
    pub slot: u32,
    /// Byte distance from one vertex to the next.
    pub pitch: u32,
    pub input_rate: VertexInputRate,
    pub instance_step_rate: u32,
}

/// What the indices of a draw are assembled to.
#[derive(Clone, Copy, Debug, PartialEq, Eq, Structural)]
pub enum PrimitiveType {
    TriangleList,
}

/// Everything but the shaders that a pipeline is compiled from.
#[derive(Clone, Copy, Debug)]
pub struct PipelineRequest {
    pub target_format: TextureFormat,
    pub blend_state: BlendState,
    pub primitive_type: PrimitiveType,
    pub vertex_buffer: VertexBufferDescription,
    /// Position, colour, texture coordinate, blend selector.
    pub vertex_attributes: [VertexAttribute; 4],
}

/// A material to compile: its two shaders and its pipeline.
#[derive(Clone, Copy, Debug)]
pub struct MaterialRequest {
    pub vertex: ShaderRequest,
    pub fragment: ShaderRequest,
    pub pipeline: PipelineRequest,
}

/// Size in bytes of a field that is read as `format`.
pub open spec fn format_size(format: VertexElementFormat) -> nat {
    match format {
        VertexElementFormat::Float2 => 8,
        VertexElementFormat::Float3 => 12,
        VertexElementFormat::Ubyte4Norm => 4,
    }
}

/// The formats of the fields of a vertex, in the order of the fields:
/// position, colour, texture coordinate, blend selector.
pub open spec fn vertex_formats() -> Seq<VertexElementFormat> {
    seq![
        VertexElementFormat::Float3,
        VertexElementFormat::Ubyte4Norm,
        VertexElementFormat::Float2,
        VertexElementFormat::Ubyte4Norm,
    ]
}

/// Byte offset of field `i` of a vertex: the sizes of the fields before it.
pub open spec fn field_offset(i: nat) -> nat
    decreases i,
{
    if i == 0 || i > 4 {
        0
    } else {
        field_offset((i - 1) as nat) + format_size(vertex_formats()[i - 1])
    }
}

/// The attribute of field `i` of a vertex: shader input `i`, read from
/// buffer slot 0 at the field's offset.
pub open spec fn vertex_attribute(i: nat) -> VertexAttribute
    recommends
        i < 4,
{
    VertexAttribute {
        location: i as u32,
        buffer_slot: 0,
        offset: field_offset(i) as u32,
        format: vertex_formats()[i as int],
    }
}

/// Standard alpha blending: the fragment's colour weighted by its alpha over
/// the pixel's colour weighted by the rest, and the fragment's alpha over the
/// pixel's alpha weighted by the rest.
pub open spec fn alpha_blending() -> BlendState {
    BlendState {
        enable_blend: true,
        src_color_blendfactor: BlendFactor::SrcAlpha,
        dst_color_blendfactor: BlendFactor::OneMinusSrcAlpha,
        color_blend_op: BlendOp::Add,
        src_alpha_blendfactor: BlendFactor::One,
        dst_alpha_blendfactor: BlendFactor::OneMinusSrcAlpha,
        alpha_blend_op: BlendOp::Add,
    }
}

/// Whether `request` is the pipeline of a material that draws into `format`:
/// triangle lists, alpha blending, and a vertex layout that reads the four
/// fields of a vertex one after the other.
pub open spec fn is_pipeline_for(request: PipelineRequest, format: TextureFormat) -> bool {
    &&& request.target_format == format
    &&& request.blend_state == alpha_blending()
    &&& request.primitive_type == PrimitiveType::TriangleList
    &&& request.vertex_buffer == VertexBufferDescription {
        slot: 0,
        pitch: VERTEX_SIZE,
        input_rate: VertexInputRate::Vertex,
        instance_step_rate: 0,
    }
    &&& forall|i: nat| i < 4 ==> request.vertex_attributes[i as int] == #[trigger] vertex_attribute(i)
}

/// The fields of a vertex lie one after the other without gap or overlap,
/// and together they fill the vertex: the layout that the pipeline reads is
/// the layout of the vertex record.
pub proof fn lemma_vertex_layout()
    ensures
        field_offset(0) == 0,
        forall|i: nat| i < 4 ==> #[trigger] field_offset(i + 1) == field_offset(i) + format_size(vertex_formats()[i as int]),
        field_offset(4) == VERTEX_SIZE,
        field_offset(1) == 12,
        field_offset(2) == 16,
        field_offset(3) == 24,
{
    reveal_with_fuel(field_offset, 5);
}

/// Name of the entry point of every vertex shader.
pub open spec fn vertex_entrypoint() -> Seq<char> {
    "vertex_main"@
}

/// Name of the entry point of every fragment shader.
pub open spec fn fragment_entrypoint() -> Seq<char> {
    "fragment_main"@
}

/// Whether `request` asks for the shader that `specification` describes, at
/// `stage` and in MSL.
pub open spec fn is_shader_for(request: ShaderRequest, specification: ShaderSpecification, stage: ShaderStage) -> bool {
    &&& request.stage == stage
    &&& request.format == ShaderFormat::Msl
    &&& request.code@ == specification.src@
    &&& request.samplers == specification.sampler_count
    &&& request.uniform_buffers == specification.uniform_buffer_count
    &&& request.entrypoint@ == match stage {
        ShaderStage::Vertex => vertex_entrypoint(),
        ShaderStage::Fragment => fragment_entrypoint(),
    }
}

impl MaterialSpecification {
    /// The specification of the built-in material for coloured and textured
    /// geometry: a fragment shader that samples one texture and a vertex
    /// shader that reads the projection from one uniform buffer.
    pub fn builtin(fragment_src: &'static str, vertex_src: &'static str, texture_format: TextureFormat) -> (s: Self)
        ensures
            s.fragment.src@ == fragment_src@,
            s.fragment.sampler_count == 1,
            s.fragment.uniform_buffer_count == 0,
            s.vertex.src@ == vertex_src@,
            s.vertex.sampler_count == 0,
            s.vertex.uniform_buffer_count == 1,
            s.texture_format == texture_format,
    {
        MaterialSpecification {
            fragment: ShaderSpecification { src: fragment_src, uniform_buffer_count: 0, sampler_count: 1 },
            vertex: ShaderSpecification { src: vertex_src, uniform_buffer_count: 1, sampler_count: 0 },
            texture_format,
        }
    }
}

impl Material {
    /// The material of the compiled pipeline `pipeline`, which draws into
    /// images of `target_texture_format`.
    pub fn new(pipeline: u64, target_texture_format: TextureFormat) -> (material: Self)
        ensures
            material == (Material { pipeline, target_texture_format }),
    {
        Material { pipeline, target_texture_format }
    }

    /// The pipeline to compile for a material that draws into
    /// `target_texture_format`. Blending and the vertex layout are the same
    /// for every material.
    pub fn pipeline_request(target_texture_format: TextureFormat) -> (request: PipelineRequest)
        ensures
            is_pipeline_for(request, target_texture_format),
    {
        proof {
            lemma_vertex_layout();
        }
        let request = PipelineRequest {
            target_format: target_texture_format,
            blend_state: BlendState {
                enable_blend: true,
                src_color_blendfactor: BlendFactor::SrcAlpha,
                dst_color_blendfactor: BlendFactor::OneMinusSrcAlpha,
                color_blend_op: BlendOp::Add,
                src_alpha_blendfactor: BlendFactor::One,
                dst_alpha_blendfactor: BlendFactor::OneMinusSrcAlpha,
                alpha_blend_op: BlendOp::Add,
            },
            primitive_type: PrimitiveType::TriangleList,
            vertex_buffer: VertexBufferDescription {
                slot: 0,
                pitch: VERTEX_SIZE,
                input_rate: VertexInputRate::Vertex,
                instance_step_rate: 0,
            },
            vertex_attributes: [
                VertexAttribute { location: 0, buffer_slot: 0, offset: 0, format: VertexElementFormat::Float3 },
                VertexAttribute { location: 1, buffer_slot: 0, offset: 12, format: VertexElementFormat::Ubyte4Norm },
                VertexAttribute { location: 2, buffer_slot: 0, offset: 16, format: VertexElementFormat::Float2 },
                VertexAttribute { location: 3, buffer_slot: 0, offset: 24, format: VertexElementFormat::Ubyte4Norm },
            ],
        };
        assert forall|i: nat| i < 4 implies request.vertex_attributes[i as int] == #[trigger] vertex_attribute(
            i,
        ) by {
            assert(i == 0 || i == 1 || i == 2 || i == 3);
        }
        request
    }

    /// What to compile for the material that `specification` describes, on a
    /// device that takes the shader formats `supported`.
    ///
    /// Fails if the device does not take MSL, the one format the shaders are
    /// written in.
    pub fn from_specification(supported: ShaderFormats, specification: &MaterialSpecification) -> (r: Result<
        MaterialRequest,
        MaterialError,
    >)
        ensures
            match r {
                Ok(request) => {
                    &&& supported.msl
                    &&& is_shader_for(request.fragment, specification.fragment, ShaderStage::Fragment)
                    &&& is_shader_for(request.vertex, specification.vertex, ShaderStage::Vertex)
                    &&& is_pipeline_for(request.pipeline, specification.texture_format)
                },
                Err(e) => !supported.msl && e == MaterialError::ShaderFormatUnsupported,
            },
    {
        if !supported.msl {
            return Err(MaterialError::ShaderFormatUnsupported);
        }
        let fragment = ShaderRequest {
            stage: ShaderStage::Fragment,
            format: ShaderFormat::Msl,
            code: specification.fragment.src,
            entrypoint: "fragment_main",
            samplers: specification.fragment.sampler_count,
            uniform_buffers: specification.fragment.uniform_buffer_count,
        };
        let vertex = ShaderRequest {
            stage: ShaderStage::Vertex,
            format: ShaderFormat::Msl,
            code: specification.vertex.src,
            entrypoint: "vertex_main",
            samplers: specification.vertex.sampler_count,
            uniform_buffers: specification.vertex.uniform_buffer_count,
        };
        Ok(MaterialRequest { vertex, fragment, pipeline: Material::pipeline_request(specification.texture_format) })
    }

    /// What to compile for the built-in material, whose shaders are
    /// `fragment_src` and `vertex_src`, so that it draws into images of
    /// `texture_format`.
    pub fn default(
        supported: ShaderFormats,
        fragment_src: &'static str,
        vertex_src: &'static str,
        texture_format: TextureFormat,
    ) -> (r: Result<MaterialRequest, MaterialError>)
        ensures
            match r {
                Ok(request) => {
                    &&& supported.msl
                    &&& is_shader_for(
                        request.fragment,
                        ShaderSpecification { src: fragment_src, uniform_buffer_count: 0, sampler_count: 1 },
                        ShaderStage::Fragment,
                    )
                    &&& is_shader_for(
                        request.vertex,
                        ShaderSpecification { src: vertex_src, uniform_buffer_count: 1, sampler_count: 0 },
                        ShaderStage::Vertex,
                    )
                    &&& is_pipeline_for(request.pipeline, texture_format)
                },
                Err(e) => !supported.msl && e == MaterialError::ShaderFormatUnsupported,
            },
    {
        let specification = MaterialSpecification::builtin(fragment_src, vertex_src, texture_format);
        Material::from_specification(supported, &specification)
    }
}

} // verus!
