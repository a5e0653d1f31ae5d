use render_core::graphics::material::{
    BlendFactor, BlendOp, Material, MaterialError, MaterialSpecification, PrimitiveType, ShaderFormat,
    ShaderFormats, ShaderSpecification, ShaderStage, VertexAttribute, VertexElementFormat, VertexInputRate,
};
use render_core::graphics::texture::TextureFormat;
use render_core::graphics::{Vertex, VERTEX_SIZE};

fn metal() -> ShaderFormats {
    ShaderFormats { spirv: false, dxbc: false, dxil: false, msl: true, metallib: true }
}

#[test]
fn materials_are_equal_by_pipeline_and_format() {
    let a = Material::new(7, TextureFormat::R8g8b8a8Unorm);
    assert_eq!(a, Material::new(7, TextureFormat::R8g8b8a8Unorm));
    assert_ne!(a, Material::new(8, TextureFormat::R8g8b8a8Unorm));
    assert_ne!(a, Material::new(7, TextureFormat::B8g8r8a8Unorm));
    assert_ne!(a, Material::new(7, TextureFormat::Other(4)));
}

#[test]
fn vertex_layout_follows_the_vertex_record() {
    let request = Material::pipeline_request(TextureFormat::B8g8r8a8Unorm);
    assert_eq!(
        request.vertex_attributes,
        [
            VertexAttribute { location: 0, buffer_slot: 0, offset: 0, format: VertexElementFormat::Float3 },
            VertexAttribute { location: 1, buffer_slot: 0, offset: 12, format: VertexElementFormat::Ubyte4Norm },
            VertexAttribute { location: 2, buffer_slot: 0, offset: 16, format: VertexElementFormat::Float2 },
            VertexAttribute { location: 3, buffer_slot: 0, offset: 24, format: VertexElementFormat::Ubyte4Norm },
        ]
    );
    assert_eq!(request.vertex_buffer.pitch, 28);
    assert_eq!(request.vertex_buffer.slot, 0);
    assert_eq!(request.vertex_buffer.input_rate, VertexInputRate::Vertex);
    assert_eq!(request.vertex_buffer.instance_step_rate, 0);
    assert_eq!(VERTEX_SIZE as usize, std::mem::size_of::<Vertex>());
    assert_eq!(std::mem::size_of::<[u32; 3]>(), 12);
}

#[test]
fn pipeline_blends_over() {
    let request = Material::pipeline_request(TextureFormat::B8g8r8a8Unorm);
    assert_eq!(request.target_format, TextureFormat::B8g8r8a8Unorm);
    assert_eq!(request.primitive_type, PrimitiveType::TriangleList);
    assert!(request.blend_state.enable_blend);
    assert_eq!(request.blend_state.src_color_blendfactor, BlendFactor::SrcAlpha);
    assert_eq!(request.blend_state.dst_color_blendfactor, BlendFactor::OneMinusSrcAlpha);
    assert_eq!(request.blend_state.src_alpha_blendfactor, BlendFactor::One);
    assert_eq!(request.blend_state.dst_alpha_blendfactor, BlendFactor::OneMinusSrcAlpha);
    assert_eq!(request.blend_state.color_blend_op, BlendOp::Add);
    assert_eq!(request.blend_state.alpha_blend_op, BlendOp::Add);
}

#[test]
fn from_specification_asks_for_both_shaders() {
    let specification = MaterialSpecification {
        fragment: ShaderSpecification { src: "fragment source", sampler_count: 1, uniform_buffer_count: 0 },
        vertex: ShaderSpecification { src: "vertex source", uniform_buffer_count: 1, sampler_count: 0 },
        texture_format: TextureFormat::R8g8b8a8Unorm,
    };
    let request = Material::from_specification(metal(), &specification).unwrap();
    assert_eq!(request.fragment.stage, ShaderStage::Fragment);
    assert_eq!(request.fragment.format, ShaderFormat::Msl);
    assert_eq!(request.fragment.code, "fragment source");
    assert_eq!(request.fragment.entrypoint, "fragment_main");
    assert_eq!(request.fragment.samplers, 1);
    assert_eq!(request.fragment.uniform_buffers, 0);
    assert_eq!(request.vertex.stage, ShaderStage::Vertex);
    assert_eq!(request.vertex.format, ShaderFormat::Msl);
    assert_eq!(request.vertex.code, "vertex source");
    assert_eq!(request.vertex.entrypoint, "vertex_main");
    assert_eq!(request.vertex.samplers, 0);
    assert_eq!(request.vertex.uniform_buffers, 1);
    assert_eq!(request.pipeline.target_format, TextureFormat::R8g8b8a8Unorm);
}

#[test]
fn device_without_msl_is_refused() {
    let specification = MaterialSpecification::builtin("f", "v", TextureFormat::R8g8b8a8Unorm);
    let vulkan = ShaderFormats { spirv: true, dxbc: false, dxil: false, msl: false, metallib: false };
    assert_eq!(
        Material::from_specification(vulkan, &specification).err(),
        Some(MaterialError::ShaderFormatUnsupported)
    );
    assert_eq!(
        Material::default(vulkan, "f", "v", TextureFormat::R8g8b8a8Unorm).err(),
        Some(MaterialError::ShaderFormatUnsupported)
    );
}

#[test]
fn default_material_samples_one_texture() {
    let request = Material::default(metal(), "f", "v", TextureFormat::B8g8r8a8Unorm).unwrap();
    assert_eq!(request.fragment.code, "f");
    assert_eq!(request.fragment.samplers, 1);
    assert_eq!(request.fragment.uniform_buffers, 0);
    assert_eq!(request.vertex.code, "v");
    assert_eq!(request.vertex.samplers, 0);
    assert_eq!(request.vertex.uniform_buffers, 1);
    assert_eq!(request.pipeline.target_format, TextureFormat::B8g8r8a8Unorm);
}
