use psx_renderer::camera::{
    camera_matrix, flip_matrix, focal_length_matrix, intrinsic_matrix, principal_point_matrix,
    rotation_x_matrix, rotation_y_matrix, viewport_scale_matrix, world_translation_matrix,
    CameraState, CAMERA_STEP_RAW,
};
use psx_renderer::fractional_type::FractionalType;
use psx_renderer::linalg::Vector4;
use psx_renderer::projection::project_vertex;

fn fx(n: i32) -> FractionalType {
    FractionalType::from_num(n)
}

#[test]
fn intrinsic_matrix_entries_for_the_reference_viewport() {
    let m = intrinsic_matrix(fx(1), fx(640), fx(480));
    assert_eq!(m.e[0][0].to_fixed(), 320 * 65536);
    assert_eq!(m.e[0][1].to_fixed(), 0);
    assert_eq!(m.e[0][2].to_fixed(), 320 * 65536);
    assert_eq!(m.e[1][0].to_fixed(), 0);
    assert_eq!(m.e[1][1].to_fixed(), -240 * 65536);
    assert_eq!(m.e[1][2].to_fixed(), 240 * 65536);
    assert_eq!(m.e[2][0].to_fixed(), 0);
    assert_eq!(m.e[2][1].to_fixed(), 0);
    assert_eq!(m.e[2][2].to_fixed(), 65536);
}

#[test]
fn component_matrices_hold_their_documented_entries() {
    let f = focal_length_matrix(fx(2));
    assert_eq!(f.e[0][0].to_fixed(), 2 * 65536);
    assert_eq!(f.e[1][1].to_fixed(), 2 * 65536);
    assert_eq!(f.e[2][2].to_fixed(), 65536);
    let fl = flip_matrix();
    assert_eq!(fl.e[1][1].to_fixed(), -65536);
    assert_eq!(fl.e[0][0].to_fixed(), 65536);
    let pp = principal_point_matrix();
    assert_eq!(pp.e[0][2].to_fixed(), 65536);
    assert_eq!(pp.e[1][2].to_fixed(), 65536);
    let s = viewport_scale_matrix(fx(640), fx(480));
    assert_eq!(s.e[0][0].to_fixed(), 320 * 65536);
    assert_eq!(s.e[1][1].to_fixed(), 240 * 65536);
}

#[test]
fn rotations_at_angle_zero_are_the_identity() {
    let ry = rotation_y_matrix(fx(1), fx(0));
    let rx = rotation_x_matrix(fx(1), fx(0));
    for i in 0..3 {
        for j in 0..3 {
            let expected = if i == j { 65536 } else { 0 };
            assert_eq!(ry.e[i][j].to_fixed(), expected);
            assert_eq!(rx.e[i][j].to_fixed(), expected);
        }
    }
}

#[test]
fn world_translation_negates_the_camera_position() {
    let wt = world_translation_matrix(fx(3), fx(-5));
    assert_eq!(wt.e[0][3].to_fixed(), -3 * 65536);
    assert_eq!(wt.e[2][3].to_fixed(), 5 * 65536);
    assert_eq!(wt.e[1][3].to_fixed(), 0);
    assert_eq!(wt.e[0][0].to_fixed(), 65536);
}

#[test]
fn straight_ahead_point_projects_to_viewport_center() {
    let intrinsic = intrinsic_matrix(fx(1), fx(640), fx(480));
    let rx = rotation_x_matrix(fx(1), fx(0));
    let ry = rotation_y_matrix(fx(1), fx(0));
    let wt = world_translation_matrix(fx(0), fx(0));
    let cm = camera_matrix(&intrinsic, &rx, &ry, &wt);
    for d in [1, 2, 5, 50] {
        let world = Vector4 { x: fx(0), y: fx(0), z: fx(d), w: fx(1) };
        let v = project_vertex(&cm, &world);
        assert_eq!(v.x.to_fixed(), 320 * 65536);
        assert_eq!(v.y.to_fixed(), 240 * 65536);
        assert_eq!(v.x.to_num(), 320);
        assert_eq!(v.y.to_num(), 240);
    }
}

#[test]
fn chained_products_stay_exact_at_scene_scale() {
    // A camera 50 units out and a vertex 40 units across must come through
    // the whole 3-4 term chain without overflow artifacts.
    let intrinsic = intrinsic_matrix(fx(1), fx(640), fx(480));
    let rx = rotation_x_matrix(fx(1), fx(0));
    let ry = rotation_y_matrix(fx(1), fx(0));
    let wt = world_translation_matrix(fx(0), fx(-50));
    let cm = camera_matrix(&intrinsic, &rx, &ry, &wt);
    let world = Vector4 { x: fx(10), y: fx(0), z: fx(30), w: fx(1) };
    let v = project_vertex(&cm, &world);
    // x/w = (320*10 + 320*80) / 80 = 360, y/w = 240*80 / 80 = 240
    assert_eq!(v.x.to_num(), 360);
    assert_eq!(v.y.to_num(), 240);
}

#[test]
fn camera_state_steps_by_the_fixed_increment() {
    let mut state = CameraState::at_origin();
    let step = FractionalType::from_fixed(CAMERA_STEP_RAW);
    state.apply_movement(step, FractionalType::zero());
    state.apply_movement(step, step);
    state.apply_rotation(FractionalType::zero(), step.neg());
    assert_eq!(state.position_x.to_fixed(), 2 * CAMERA_STEP_RAW);
    assert_eq!(state.position_z.to_fixed(), CAMERA_STEP_RAW);
    assert_eq!(state.yaw.to_fixed(), 0);
    assert_eq!(state.pitch.to_fixed(), -CAMERA_STEP_RAW);
}
