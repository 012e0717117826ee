use std::io::Cursor;

use tamarindo_engine::application::{Application, EngineAction, EngineEvent};
use tamarindo_engine::assets_bank::AssetsBank;
use tamarindo_engine::camera::{Camera, OrthographicCamera};
use tamarindo_engine::fixed::Vec3Fp;
use tamarindo_engine::frame::{
    frame_error_action, record_frame, DrawBatch, DrawCommand, FrameAction, FrameError, FramePlan,
    PresentMode, SurfaceState,
};
use tamarindo_engine::input::Key;
use tamarindo_engine::resources::{Instance, TextureFormat};

#[test]
fn resize_zero_width_is_a_noop() {
    let mut surface = SurfaceState::new(800, 600, TextureFormat::Bgra8UnormSrgb);
    assert!(!surface.resize(0, 400));
    assert_eq!((surface.width, surface.height), (800, 600));
    assert_eq!(surface.format, TextureFormat::Bgra8UnormSrgb);
    assert_eq!(surface.present_mode, PresentMode::Fifo);
}

#[test]
fn resize_zero_height_is_a_noop() {
    let mut surface = SurfaceState::new(800, 600, TextureFormat::Bgra8UnormSrgb);
    assert!(!surface.resize(400, 0));
    assert_eq!((surface.width, surface.height), (800, 600));
}

#[test]
fn resize_changes_only_dimensions() {
    let mut surface = SurfaceState::new(800, 600, TextureFormat::Rgba8UnormSrgb);
    assert!(surface.resize(1024, 768));
    assert_eq!((surface.width, surface.height), (1024, 768));
    assert_eq!(surface.format, TextureFormat::Rgba8UnormSrgb);
    assert_eq!(surface.present_mode, PresentMode::Fifo);
}

#[test]
fn aspect_ratio_is_width_over_height() {
    let surface = SurfaceState::new(800, 600, TextureFormat::Bgra8UnormSrgb);
    assert_eq!(surface.aspect_ratio_fp(), 1_333_333);
    let tall = SurfaceState::new(600, 800, TextureFormat::Bgra8UnormSrgb);
    assert_eq!(tall.aspect_ratio_fp(), 750_000);
}

#[test]
fn frame_error_policy() {
    assert_eq!(frame_error_action(FrameError::Lost), FrameAction::Reconfigure);
    assert_eq!(frame_error_action(FrameError::Outdated), FrameAction::SkipFrame);
    assert_eq!(frame_error_action(FrameError::Timeout), FrameAction::SkipFrame);
    assert_eq!(frame_error_action(FrameError::OutOfMemory), FrameAction::Terminate);
}

#[test]
fn close_event_exits() {
    let mut app = Application::new(800, 600, TextureFormat::Bgra8UnormSrgb);
    assert_eq!(app.process_event(EngineEvent::CloseRequested), EngineAction::Exit);
}

#[test]
fn escape_key_event_exits() {
    let mut app = Application::new(800, 600, TextureFormat::Bgra8UnormSrgb);
    let action = app.process_event(EngineEvent::KeyboardInput { key: Key::Escape, pressed: true });
    assert_eq!(action, EngineAction::Exit);
}

#[test]
fn resize_event_zero_dimension_continues_unchanged() {
    let mut app = Application::new(800, 600, TextureFormat::Bgra8UnormSrgb);
    let action = app.process_event(EngineEvent::Resized { width: 0, height: 500 });
    assert_eq!(action, EngineAction::Continue);
    assert_eq!((app.surface.width, app.surface.height), (800, 600));
}

#[test]
fn resize_event_demands_reconfigure() {
    let mut app = Application::new(800, 600, TextureFormat::Bgra8UnormSrgb);
    let action = app.process_event(EngineEvent::ScaleFactorChanged { width: 1600, height: 1200 });
    assert_eq!(action, EngineAction::Reconfigure);
    assert_eq!((app.surface.width, app.surface.height), (1600, 1200));
}

#[test]
fn fresh_application_has_clean_history_and_edges() {
    let app = Application::new(800, 600, TextureFormat::Bgra8UnormSrgb);
    // The frame-time ring starts zeroed and no edge is pending.
    assert_eq!(app.get_avg_frame_time_us(), 0);
    assert!(!app.is_key_pressed(Key::KeyW));
    assert!(!app.was_key_pressed_this_frame(Key::KeyW));
    assert!(!app.was_key_released_this_frame(Key::KeyW));
    assert!(!app.was_key_released_this_frame(Key::Escape));
}

#[test]
fn begin_tick_snapshots_input_and_steps() {
    let mut app = Application::new(800, 600, TextureFormat::Bgra8UnormSrgb);
    app.process_event(EngineEvent::KeyboardInput { key: Key::KeyW, pressed: true });
    assert!(app.was_key_pressed_this_frame(Key::KeyW));
    let steps = app.begin_tick(35_000);
    assert_eq!(steps, 3);
    assert!(app.is_key_pressed(Key::KeyW));
    assert!(!app.was_key_pressed_this_frame(Key::KeyW));
}

#[test]
fn end_to_end_one_draw_with_nine_instances() {
    // Register a quad mesh from 20 raw floats and 6 indices, a 256x256
    // RGBA texture, 9 instances in a 3x3 grid with decreasing scale,
    // a diffuse pipeline and a camera; record one frame and expect
    // exactly one indexed-instanced draw with instance_count 9.
    let mut bank = AssetsBank::new();
    let quad: Vec<f32> = vec![
        1.0, 1.0, 0.0, 1.0, 0.0, //
        -1.0, 1.0, 0.0, 0.0, 0.0, //
        -1.0, -1.0, 0.0, 0.0, 1.0, //
        1.0, -1.0, 0.0, 1.0, 1.0,
    ];
    let vertex_words: Vec<u32> = quad.iter().map(|f| f.to_bits()).collect();
    let mesh = bank.register_mesh(vertex_words, vec![0u16, 1, 2, 2, 3, 0]).unwrap();

    let img = image::RgbaImage::from_pixel(256, 256, image::Rgba([255, 255, 255, 255]));
    let mut png = Vec::new();
    img.write_to(&mut Cursor::new(&mut png), image::ImageOutputFormat::Png).unwrap();
    let texture = bank.register_texture(&png).unwrap();

    let mut instances = Vec::new();
    for x in 0..3i64 {
        for y in 0..3i64 {
            let i = x * 3 + y;
            let scale = 1_000_000 - 50_000 * i;
            instances.push(Instance::new(
                Vec3Fp { x: x * 1_000_000, y: y * 1_000_000, z: 0 },
                Vec3Fp { x: scale, y: scale, z: scale },
            ));
        }
    }
    assert_eq!(instances.len(), 9);
    let instance_set = bank.register_instances(instances).unwrap();

    let pipeline = bank.register_diffuse_pipeline(TextureFormat::Bgra8UnormSrgb).unwrap();
    let camera = bank
        .register_camera(Camera::Orthographic(OrthographicCamera::new(
            Vec3Fp { x: 0, y: 0, z: 0 },
            0,
            3_000_000,
            0,
            3_000_000,
            -1_000_000,
            1_000_000,
        )))
        .unwrap();

    let plan = FramePlan {
        pipeline,
        camera,
        batches: vec![DrawBatch { texture, mesh, instances: instance_set }],
    };
    let commands = record_frame(&bank, &plan);

    assert_eq!(commands.len(), 7);
    assert_eq!(commands[0], DrawCommand::SetPipeline(pipeline));
    assert_eq!(commands[1], DrawCommand::BindCameraGroup(camera));
    assert_eq!(commands[2], DrawCommand::BindTextureGroup(texture));
    assert_eq!(commands[3], DrawCommand::BindInstanceBuffer(instance_set));
    assert_eq!(commands[4], DrawCommand::BindVertexBuffer(mesh));
    assert_eq!(commands[5], DrawCommand::BindIndexBuffer(mesh));
    let draws: Vec<&DrawCommand> = commands
        .iter()
        .filter(|c| matches!(c, DrawCommand::DrawIndexed { .. }))
        .collect();
    assert_eq!(draws.len(), 1);
    assert_eq!(*draws[0], DrawCommand::DrawIndexed { index_count: 6, instance_count: 9 });
}

#[test]
fn record_frame_two_batches_two_draws() {
    let mut bank = AssetsBank::new();
    let mesh = bank.register_mesh(vec![0u32; 5], vec![0u16, 0, 0]).unwrap();
    let img = image::RgbaImage::from_pixel(2, 2, image::Rgba([0, 0, 0, 255]));
    let mut png = Vec::new();
    img.write_to(&mut Cursor::new(&mut png), image::ImageOutputFormat::Png).unwrap();
    let texture = bank.register_texture(&png).unwrap();
    let set_a = bank
        .register_instances(vec![Instance::new(
            Vec3Fp { x: 0, y: 0, z: 0 },
            Vec3Fp { x: 0, y: 0, z: 0 },
        )])
        .unwrap();
    let set_b = bank.register_instances(Vec::new()).unwrap();
    let pipeline = bank.register_diffuse_pipeline(TextureFormat::Bgra8UnormSrgb).unwrap();
    let camera = bank
        .register_camera(Camera::Orthographic(OrthographicCamera::new(
            Vec3Fp { x: 0, y: 0, z: 0 },
            0,
            1_000_000,
            0,
            1_000_000,
            -1_000_000,
            1_000_000,
        )))
        .unwrap();
    let plan = FramePlan {
        pipeline,
        camera,
        batches: vec![
            DrawBatch { texture, mesh, instances: set_a },
            DrawBatch { texture, mesh, instances: set_b },
        ],
    };
    let commands = record_frame(&bank, &plan);
    assert_eq!(commands.len(), 12);
    let draw_counts: Vec<u32> = commands
        .iter()
        .filter_map(|c| match c {
            DrawCommand::DrawIndexed { instance_count, .. } => Some(*instance_count),
            _ => None,
        })
        .collect();
    assert_eq!(draw_counts, vec![1, 0]);
}
