use std::io::Cursor;

use tamarindo_engine::assets_bank::AssetsBank;
use tamarindo_engine::camera::{Camera, OrthographicCamera};
use tamarindo_engine::error::EngineError;
use tamarindo_engine::fixed::Vec3Fp;
use tamarindo_engine::resources::{BindingKind, Instance, ShaderStage, TextureFormat, VertexStepMode};

fn origin() -> Vec3Fp {
    Vec3Fp { x: 0, y: 0, z: 0 }
}

fn ortho_camera(x: i64) -> Camera {
    Camera::Orthographic(OrthographicCamera::new(
        Vec3Fp { x, y: 0, z: 0 },
        0,
        3_000_000,
        0,
        3_000_000,
        -1_000_000,
        1_000_000,
    ))
}

fn png_bytes(width: u32, height: u32) -> Vec<u8> {
    let img = image::RgbaImage::from_pixel(width, height, image::Rgba([180, 40, 20, 255]));
    let mut bytes = Vec::new();
    img.write_to(&mut Cursor::new(&mut bytes), image::ImageOutputFormat::Png)
        .unwrap();
    bytes
}

#[test]
fn handles_are_pairwise_distinct() {
    let mut bank = AssetsBank::new();
    let h1 = bank.register_mesh(vec![0u32; 5], vec![0u16]).unwrap();
    let h2 = bank.register_camera(ortho_camera(0)).unwrap();
    let h3 = bank
        .register_instances(vec![Instance::new(origin(), origin())])
        .unwrap();
    let h4 = bank
        .register_diffuse_pipeline(TextureFormat::Bgra8UnormSrgb)
        .unwrap();
    let h5 = bank.register_mesh(vec![0u32; 5], vec![0u16]).unwrap();
    let handles = [h1, h2, h3, h4, h5];
    for i in 0..handles.len() {
        for j in 0..handles.len() {
            if i != j {
                assert_ne!(handles[i], handles[j]);
            }
        }
    }
}

#[test]
fn texture_decode_failure_is_typed() {
    let mut bank = AssetsBank::new();
    let result = bank.register_texture(b"definitely not an image");
    assert_eq!(result, Err(EngineError::InvalidTextureData));
}

#[test]
fn texture_decode_yields_rgba_dimensions() {
    let mut bank = AssetsBank::new();
    let handle = bank.register_texture(&png_bytes(64, 32)).unwrap();
    let texture = bank.get_texture_bind_group(handle);
    assert_eq!(texture.width, 64);
    assert_eq!(texture.height, 32);
    assert_eq!(texture.pixels.len(), 4 * 64 * 32);
    assert_eq!(&texture.pixels[0..4], &[180, 40, 20, 255]);
}

#[test]
fn registered_mesh_resolves_to_its_data() {
    let mut bank = AssetsBank::new();
    let vertex_words: Vec<u32> = (0..10).collect();
    let handle = bank.register_mesh(vertex_words.clone(), vec![1u16, 0, 1]).unwrap();
    let mesh = bank.get_mesh_data(handle);
    assert_eq!(mesh.vertex_words, vertex_words);
    assert_eq!(mesh.index_data, vec![1u16, 0, 1]);
}

#[test]
fn registered_instances_keep_count_and_transforms() {
    let mut bank = AssetsBank::new();
    let instances = vec![
        Instance::new(origin(), Vec3Fp { x: 1_000_000, y: 1_000_000, z: 1_000_000 }),
        Instance::new(Vec3Fp { x: 2_000_000, y: 0, z: 0 }, origin()),
    ];
    let handle = bank.register_instances(instances).unwrap();
    let stored = bank.get_instance_data(handle);
    assert_eq!(stored.len(), 2);
    assert_eq!(stored[1].raw.m[12], 2_000_000);
}

#[test]
fn update_camera_replaces_in_place() {
    let mut bank = AssetsBank::new();
    let handle = bank.register_camera(ortho_camera(0)).unwrap();
    bank.update_camera(handle, ortho_camera(500_000));
    match bank.get_camera_bind_group(handle) {
        Camera::Orthographic(c) => assert_eq!(c.pos.x, 500_000),
        Camera::Sphere(_) => panic!("camera variant changed"),
    }
    // Updating mints no new handle: the next registration is distinct
    // from the updated one.
    let next = bank.register_camera(ortho_camera(0)).unwrap();
    assert_ne!(handle, next);
}

#[test]
fn pipeline_description_is_fixed() {
    let mut bank = AssetsBank::new();
    let handle = bank
        .register_diffuse_pipeline(TextureFormat::Rgba8UnormSrgb)
        .unwrap();
    let pipeline = bank.get_pipeline(handle);
    assert_eq!(pipeline.color_format, TextureFormat::Rgba8UnormSrgb);
    assert_eq!(pipeline.shader.vertex_entry, "vs_main");
    assert_eq!(pipeline.shader.fragment_entry, "fs_main");
    assert_eq!(pipeline.shader.vertex_buffer_layouts.len(), 2);
    let vertex_layout = &pipeline.shader.vertex_buffer_layouts[0];
    assert_eq!(vertex_layout.array_stride, 20);
    assert_eq!(vertex_layout.step_mode, VertexStepMode::Vertex);
    let offsets: Vec<u32> = vertex_layout.attributes.iter().map(|a| a.offset).collect();
    assert_eq!(offsets, vec![0, 12]);
    let instance_layout = &pipeline.shader.vertex_buffer_layouts[1];
    assert_eq!(instance_layout.array_stride, 64);
    assert_eq!(instance_layout.step_mode, VertexStepMode::Instance);
    let locations: Vec<u32> = instance_layout.attributes.iter().map(|a| a.shader_location).collect();
    assert_eq!(locations, vec![5, 6, 7, 8]);
    // Group 0 is the camera uniform, group 1 the texture and sampler:
    // the two layouts are distinct and in binding order.
    assert_eq!(pipeline.camera_layout.len(), 1);
    assert_eq!(pipeline.camera_layout[0].kind, BindingKind::UniformBuffer);
    assert_eq!(pipeline.camera_layout[0].visibility, ShaderStage::Vertex);
    assert_eq!(pipeline.texture_layout.len(), 2);
    assert_eq!(pipeline.texture_layout[0].kind, BindingKind::Texture2d);
    assert_eq!(pipeline.texture_layout[1].kind, BindingKind::Sampler);
    assert_eq!(pipeline.texture_layout[1].binding, 1);
}

#[test]
fn instance_transform_matrix_layout() {
    let instance = Instance::new(
        Vec3Fp { x: 1_000_000, y: 2_000_000, z: 3_000_000 },
        Vec3Fp { x: 900_000, y: 900_000, z: 900_000 },
    );
    let m = &instance.raw.m;
    assert_eq!(m.len(), 16);
    assert_eq!((m[0], m[5], m[10]), (900_000, 900_000, 900_000));
    assert_eq!((m[12], m[13], m[14]), (1_000_000, 2_000_000, 3_000_000));
    assert_eq!(m[15], 1_000_000);
    assert_eq!(m[1], 0);
}
