use tamarindo_engine::error::EngineError;
use tamarindo_engine::fixed::Vec3Fp;
use tamarindo_engine::resources::{
    camera_bind_group_layout, default_sampler_desc, diffuse_texture_bind_group_layout,
    instance_transform_layout, pos_uv_vertex_layout, AddressMode, BindingKind, FilterMode,
    ShaderDesc, ShaderStage, Texture, VertexFormat, VertexStepMode,
};
use tamarindo_engine::time::FrameClock;

#[test]
fn default_sampler_is_clamped_pixel_art() {
    let sampler = default_sampler_desc();
    assert_eq!(sampler.address_mode, AddressMode::ClampToEdge);
    assert_eq!(sampler.mag_filter, FilterMode::Linear);
    assert_eq!(sampler.min_filter, FilterMode::Nearest);
    assert_eq!(sampler.mipmap_filter, FilterMode::Nearest);
}

#[test]
fn pos_uv_layout_packs_position_then_uv() {
    let layout = pos_uv_vertex_layout();
    assert_eq!(layout.array_stride, 20);
    assert_eq!(layout.step_mode, VertexStepMode::Vertex);
    assert_eq!(layout.attributes.len(), 2);
    assert_eq!(layout.attributes[0].format, VertexFormat::Float32x3);
    assert_eq!(layout.attributes[0].offset, 0);
    assert_eq!(layout.attributes[0].shader_location, 0);
    assert_eq!(layout.attributes[1].format, VertexFormat::Float32x2);
    assert_eq!(layout.attributes[1].offset, 12);
    assert_eq!(layout.attributes[1].shader_location, 1);
}

#[test]
fn instance_layout_is_one_matrix_per_instance() {
    let layout = instance_transform_layout();
    assert_eq!(layout.array_stride, 64);
    assert_eq!(layout.step_mode, VertexStepMode::Instance);
    let offsets: Vec<u32> = layout.attributes.iter().map(|a| a.offset).collect();
    assert_eq!(offsets, vec![0, 16, 32, 48]);
    let locations: Vec<u32> = layout.attributes.iter().map(|a| a.shader_location).collect();
    assert_eq!(locations, vec![5, 6, 7, 8]);
}

#[test]
fn bind_group_layouts_match_shader_interface() {
    let camera = camera_bind_group_layout();
    assert_eq!(camera.len(), 1);
    assert_eq!(camera[0].binding, 0);
    assert_eq!(camera[0].visibility, ShaderStage::Vertex);
    assert_eq!(camera[0].kind, BindingKind::UniformBuffer);
    let texture = diffuse_texture_bind_group_layout();
    assert_eq!(texture.len(), 2);
    assert_eq!(texture[0].kind, BindingKind::Texture2d);
    assert_eq!(texture[1].kind, BindingKind::Sampler);
    assert_eq!(texture[1].visibility, ShaderStage::Fragment);
}

#[test]
fn diffuse_shader_desc_names_entry_points() {
    let desc = ShaderDesc::new_diffuse_desc();
    assert_eq!(desc.vertex_entry, "vs_main");
    assert_eq!(desc.fragment_entry, "fs_main");
    assert_eq!(desc.vertex_buffer_layouts.len(), 2);
}

#[test]
fn texture_from_raw_rejects_size_mismatch() {
    let result = Texture::from_raw(4, 4, vec![0u8; 63]);
    assert_eq!(result, Err(EngineError::InvalidTextureData));
    let ok = Texture::from_raw(4, 4, vec![0u8; 64]).unwrap();
    assert_eq!((ok.width, ok.height), (4, 4));
}

#[test]
fn frame_time_ring_wraps_after_full_window() {
    let mut clock = FrameClock::new();
    for _ in 0..101 {
        clock.advance(10_000);
    }
    assert_eq!(clock.frame_count(), 101);
    // All hundred slots hold 10 ms after the wrap.
    assert_eq!(clock.avg_frame_time_us(), 10_000);
    assert_eq!(clock.total_sim_time(), 1_010);
}

#[test]
fn vec3_zero_is_the_origin() {
    let v = Vec3Fp::zero();
    assert_eq!((v.x, v.y, v.z), (0, 0, 0));
}
