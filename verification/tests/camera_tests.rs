use tamarindo_engine::camera::{
    update_sphere_camera, Camera, OrthographicCamera, OrthographicCameraController, SphereCamera,
    ViewProjection, PHI_MAX_URAD, PHI_MIN_URAD,
};
use tamarindo_engine::fixed::{Vec3Fp, FP_ONE};
use tamarindo_engine::input::{InputManager, Key};

fn origin() -> Vec3Fp {
    Vec3Fp { x: 0, y: 0, z: 0 }
}

fn ortho_unit_box() -> OrthographicCamera {
    // The source's startup camera: a [0, 3] x [0, 3] box with depth
    // [-1, 1], in fixed point.
    OrthographicCamera::new(origin(), 0, 3_000_000, 0, 3_000_000, -1_000_000, 1_000_000)
}

#[test]
fn orbit_polar_angle_clamps_at_lower_margin() {
    let mut cam = SphereCamera::new(origin(), 0, 1_500_000, 5_000_000, FP_ONE);
    cam.move_camera(0, -5_000_000, 0);
    assert_eq!(cam.phi, PHI_MIN_URAD);
    cam.move_camera(0, -1, 0);
    assert_eq!(cam.phi, PHI_MIN_URAD);
}

#[test]
fn orbit_polar_angle_clamps_at_upper_margin() {
    let mut cam = SphereCamera::new(origin(), 0, 1_500_000, 5_000_000, FP_ONE);
    cam.move_camera(0, 5_000_000, 0);
    assert_eq!(cam.phi, PHI_MAX_URAD);
    cam.move_camera(0, 1, 0);
    assert_eq!(cam.phi, PHI_MAX_URAD);
}

#[test]
fn orbit_radius_clamps_at_zero_and_max() {
    let mut cam = SphereCamera::new(origin(), 0, 1_500_000, 5_000_000, FP_ONE);
    cam.move_camera(0, 0, -10_000_000);
    assert_eq!(cam.radius_pos, 0);
    cam.move_camera(0, 0, 9_000_000);
    assert_eq!(cam.radius_pos, 5_000_000);
}

#[test]
fn orbit_controller_applies_polar_speed_and_clamp() {
    let mut cam = SphereCamera::new(origin(), 0, 1_500_000, 5_000_000, FP_ONE);
    let mut input = InputManager::new();
    input.process_key(Key::KeyW, true);
    // One second at half pi per second overshoots the upper margin.
    let moved = update_sphere_camera(&input, 1_000_000, &mut cam);
    assert!(moved);
    assert_eq!(cam.phi, PHI_MAX_URAD);
    assert_eq!(cam.theta, 0);
    assert_eq!(cam.radius_pos, 5_000_000);
}

#[test]
fn orbit_controller_radial_step() {
    let mut cam = SphereCamera::new(origin(), 0, 1_500_000, 5_000_000, FP_ONE);
    let mut input = InputManager::new();
    input.process_key(Key::KeyE, true);
    // One second at half a unit per second, inward.
    assert!(update_sphere_camera(&input, 1_000_000, &mut cam));
    assert_eq!(cam.radius_pos, 4_500_000);
}

#[test]
fn orbit_controller_no_keys_no_move() {
    let mut cam = SphereCamera::new(origin(), 0, 1_500_000, 5_000_000, FP_ONE);
    let input = InputManager::new();
    assert!(!update_sphere_camera(&input, 1_000_000, &mut cam));
    assert_eq!(cam.phi, 1_500_000);
}

#[test]
fn single_key_moves_full_step() {
    let controller = OrthographicCameraController::new(1_000_000);
    let mut cam = ortho_unit_box();
    let mut input = InputManager::new();
    input.process_key(Key::KeyD, true);
    assert!(controller.update_camera(&input, 1_000_000, &mut cam));
    assert_eq!(cam.pos.x, 1_000_000);
    assert_eq!(cam.pos.y, 0);
}

#[test]
fn diagonal_movement_is_normalized() {
    // Two orthogonal keys apply the 1/sqrt(2)-scaled step per axis, so
    // the diagonal speed matches the single-key speed.
    let controller = OrthographicCameraController::new(1_000_000);
    let mut cam = ortho_unit_box();
    let mut input = InputManager::new();
    input.process_key(Key::KeyD, true);
    input.process_key(Key::KeyW, true);
    assert!(controller.update_camera(&input, 1_000_000, &mut cam));
    assert_eq!(cam.pos.x, 707_106);
    assert_eq!(cam.pos.y, 707_106);
    // The per-axis factor is 1/sqrt(2) to within fixed-point truncation.
    let unit = cam.pos.x as f64 / 1_000_000.0;
    assert!((unit - 0.5f64.sqrt()).abs() < 1e-6);
    // Squared diagonal speed never exceeds, and closely tracks, the
    // squared single-key speed.
    let single = 1_000_000i64;
    let diag_sq = 2 * cam.pos.x * cam.pos.x;
    assert!(diag_sq <= single * single);
    assert!((single * single - diag_sq) as f64 / ((single * single) as f64) < 1e-5);
}

#[test]
fn opposing_keys_cancel() {
    let controller = OrthographicCameraController::new(1_000_000);
    let mut cam = ortho_unit_box();
    let mut input = InputManager::new();
    input.process_key(Key::KeyA, true);
    input.process_key(Key::KeyD, true);
    input.process_key(Key::KeyW, true);
    assert!(controller.update_camera(&input, 1_000_000, &mut cam));
    assert_eq!(cam.pos.x, 0);
    assert_eq!(cam.pos.y, 1_000_000);
}

#[test]
fn move_camera_pos_translates_and_keeps_box() {
    let mut cam = ortho_unit_box();
    cam.move_camera_pos(Vec3Fp { x: 250_000, y: -250_000, z: 0 });
    assert_eq!(cam.pos.x, 250_000);
    assert_eq!(cam.pos.y, -250_000);
    assert_eq!(cam.left, 0);
    assert_eq!(cam.right, 3_000_000);
}

#[test]
fn ortho_view_projection_entries() {
    let cam = ortho_unit_box();
    let vp = cam.view_projection();
    // Scales: 2 / 3 on x and y; depth -2 / 2 halved by the clip-space
    // conversion; translations -1 on x and y, 0.5 on z.
    assert_eq!(vp.m[0], 666_666);
    assert_eq!(vp.m[5], 666_666);
    assert_eq!(vp.m[10], -500_000);
    assert_eq!(vp.m[12], -1_000_000);
    assert_eq!(vp.m[13], -1_000_000);
    assert_eq!(vp.m[14], 500_000);
    assert_eq!(vp.m[15], 1_000_000);
    for k in [1, 2, 3, 4, 6, 7, 8, 9, 11] {
        assert_eq!(vp.m[k], 0, "entry {} must be zero", k);
    }
}

#[test]
fn ortho_view_projection_moves_with_camera() {
    let mut cam = ortho_unit_box();
    cam.move_camera_pos(Vec3Fp { x: 1_500_000, y: 0, z: 0 });
    let vp = cam.view_projection();
    // x translation: sx * (-pos.x) + tx = 666_666 * -1.5 - 1.0.
    assert_eq!(vp.m[12], -999_999 - 1_000_000);
}

#[test]
fn camera_variant_resolves_matrix_or_parameters() {
    let ortho = Camera::Orthographic(ortho_unit_box());
    match ortho.compute_view_projection() {
        ViewProjection::Matrix(m) => assert_eq!(m.m.len(), 16),
        ViewProjection::Spherical(_) => panic!("orthographic camera must yield a matrix"),
    }
    let sphere = Camera::Sphere(SphereCamera::new(origin(), 7, 1_500_000, 5_000_000, FP_ONE));
    match sphere.compute_view_projection() {
        ViewProjection::Matrix(_) => panic!("orbit camera must yield its parameters"),
        ViewProjection::Spherical(s) => {
            assert_eq!(s.theta, 7);
            assert_eq!(s.radius_pos, 5_000_000);
        }
    }
}
