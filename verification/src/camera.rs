//! Camera transform pipeline. The intrinsic matrix (viewport scale,
//! principal-point translation, vertical flip, focal length) is built once
//! per session; the extrinsic chain (pitch rotation, yaw rotation, world
//! translation) is rebuilt every frame from the live camera state. The
//! composed product maps a homogeneous world vertex to homogeneous image
//! coordinates:
//! `P = Scale * Translate * Flip * FocalLength * Rx * Ry * WorldTranslate`,
//! with every product associated left to right, exactly as computed here.

use crate::fractional_type::{
    fx_add, fx_div, fx_mul, fx_neg, lemma_wrap_id, FractionalType,
};
use crate::linalg::{
    mat3_mul_mat3x4_model, mat3_mul_model, mat3x4_apply_model, Mat3Model, Mat3x4Model, Matrix3,
    Matrix3x4, Vec4Model,
};
use vstd::prelude::*;

verus! {

/// Live camera state: world-space offsets along the x and z axes (the
/// camera's height is fixed) and facing angles, yaw about the vertical axis
/// and pitch about the horizontal axis, all as fixed-point values.
#[derive(Clone, Copy)]
pub struct CameraState {
    pub position_x: FractionalType,
    pub position_z: FractionalType,
    pub yaw: FractionalType,
    pub pitch: FractionalType,
}

/// Raw value of the fixed step every movement or rotation key applies to one
/// camera-state field: the nearest representable value to one tenth.
pub const CAMERA_STEP_RAW: i32 = 6554;

impl CameraState {
    /// The state of a camera standing at the world origin, facing straight
    /// ahead.
    pub fn at_origin() -> (r: CameraState)
        ensures
            r.position_x@ == 0,
            r.position_z@ == 0,
            r.yaw@ == 0,
            r.pitch@ == 0,
    {
        CameraState {
            position_x: FractionalType::zero(),
            position_z: FractionalType::zero(),
            yaw: FractionalType::zero(),
            pitch: FractionalType::zero(),
        }
    }

    /// Shift the camera position by the given world-space deltas.
    pub fn apply_movement(&mut self, dx: FractionalType, dz: FractionalType)
        ensures
            final(self).position_x@ == fx_add(old(self).position_x@, dx@),
            final(self).position_z@ == fx_add(old(self).position_z@, dz@),
            final(self).yaw == old(self).yaw,
            final(self).pitch == old(self).pitch,
    {
        self.position_x = self.position_x.add(dx);
        self.position_z = self.position_z.add(dz);
    }

    /// Turn the camera facing by the given angle deltas.
    pub fn apply_rotation(&mut self, dyaw: FractionalType, dpitch: FractionalType)
        ensures
            final(self).yaw@ == fx_add(old(self).yaw@, dyaw@),
            final(self).pitch@ == fx_add(old(self).pitch@, dpitch@),
            final(self).position_x == old(self).position_x,
            final(self).position_z == old(self).position_z,
    {
        self.yaw = self.yaw.add(dyaw);
        self.pitch = self.pitch.add(dpitch);
    }
}

/// Model of the focal-length matrix `diag(f, f, 1)`.
pub open spec fn focal_length_model(f: int) -> Mat3Model {
    Mat3Model { m00: f, m01: 0, m02: 0, m10: 0, m11: f, m12: 0, m20: 0, m21: 0, m22: 65536 }
}

/// Model of the axis-flip matrix `diag(1, -1, 1)` between camera space
/// (y up) and image space (rows grow downward).
pub open spec fn flip_model() -> Mat3Model {
    Mat3Model {
        m00: 65536,
        m01: 0,
        m02: 0,
        m10: 0,
        m11: -65536,
        m12: 0,
        m20: 0,
        m21: 0,
        m22: 65536,
    }
}

/// Model of the principal-point translation, a unit offset on both image
/// axes: applied before the viewport scale it moves the optical axis from
/// the image origin to the viewport centre.
pub open spec fn principal_point_model() -> Mat3Model {
    Mat3Model {
        m00: 65536,
        m01: 0,
        m02: 65536,
        m10: 0,
        m11: 65536,
        m12: 65536,
        m20: 0,
        m21: 0,
        m22: 65536,
    }
}

/// Model of the viewport scale `diag(w/2, h/2, 1)` mapping normalised image
/// coordinates to device pixels.
pub open spec fn viewport_scale_model(w: int, h: int) -> Mat3Model {
    Mat3Model {
        m00: fx_div(w, 131072),
        m01: 0,
        m02: 0,
        m10: 0,
        m11: fx_div(h, 131072),
        m12: 0,
        m20: 0,
        m21: 0,
        m22: 65536,
    }
}

/// Model of the whole intrinsic matrix,
/// `Scale * Translate * Flip * FocalLength`, associated left to right.
pub open spec fn intrinsic_model(f: int, w: int, h: int) -> Mat3Model {
    mat3_mul_model(
        mat3_mul_model(mat3_mul_model(viewport_scale_model(w, h), principal_point_model()), flip_model()),
        focal_length_model(f),
    )
}

/// Model of the rotation about the vertical axis by the angle whose cosine
/// and sine raw values are given.
pub open spec fn rotation_y_model(c: int, s: int) -> Mat3Model {
    Mat3Model { m00: c, m01: 0, m02: s, m10: 0, m11: 65536, m12: 0, m20: fx_neg(s), m21: 0, m22: c }
}

/// Model of the rotation about the horizontal axis by the angle whose
/// cosine and sine raw values are given.
pub open spec fn rotation_x_model(c: int, s: int) -> Mat3Model {
    Mat3Model { m00: 65536, m01: 0, m02: 0, m10: 0, m11: c, m12: fx_neg(s), m20: 0, m21: s, m22: c }
}

/// Model of the world translation moving the camera position to the origin.
pub open spec fn world_translation_model(cx: int, cz: int) -> Mat3x4Model {
    Mat3x4Model {
        m00: 65536,
        m01: 0,
        m02: 0,
        m03: fx_neg(cx),
        m10: 0,
        m11: 65536,
        m12: 0,
        m13: 0,
        m20: 0,
        m21: 0,
        m22: 65536,
        m23: fx_neg(cz),
    }
}

/// Model of the full per-frame camera matrix,
/// `Intrinsic * Rx * Ry * WorldTranslate`, associated left to right.
pub open spec fn camera_matrix_model(
    intrinsic: Mat3Model,
    rx: Mat3Model,
    ry: Mat3Model,
    wt: Mat3x4Model,
) -> Mat3x4Model {
    mat3_mul_mat3x4_model(mat3_mul_model(mat3_mul_model(intrinsic, rx), ry), wt)
}

/// The focal-length matrix `diag(f, f, 1)`.
pub fn focal_length_matrix(f: FractionalType) -> (r: Matrix3)
    ensures
        r@ == focal_length_model(f@),
{
    let o = FractionalType::from_num(1);
    let z = FractionalType::zero();
    Matrix3 { e: [[f, z, z], [z, f, z], [z, z, o]] }
}

/// The axis-flip matrix `diag(1, -1, 1)`.
pub fn flip_matrix() -> (r: Matrix3)
    ensures
        r@ == flip_model(),
{
    let o = FractionalType::from_num(1);
    let n = FractionalType::from_num(-1);
    let z = FractionalType::zero();
    Matrix3 { e: [[o, z, z], [z, n, z], [z, z, o]] }
}

/// The principal-point translation matrix.
pub fn principal_point_matrix() -> (r: Matrix3)
    ensures
        r@ == principal_point_model(),
{
    let o = FractionalType::from_num(1);
    let z = FractionalType::zero();
    Matrix3 { e: [[o, z, o], [z, o, o], [z, z, o]] }
}

/// The viewport scale matrix `diag(w/2, h/2, 1)`.
pub fn viewport_scale_matrix(w: FractionalType, h: FractionalType) -> (r: Matrix3)
    ensures
        r@ == viewport_scale_model(w@, h@),
{
    let o = FractionalType::from_num(1);
    let z = FractionalType::zero();
    let two = FractionalType::from_num(2);
    Matrix3 { e: [[w.div(two), z, z], [z, h.div(two), z], [z, z, o]] }
}

/// The whole intrinsic matrix, built once per session:
/// `Scale * Translate * Flip * FocalLength`.
pub fn intrinsic_matrix(f: FractionalType, w: FractionalType, h: FractionalType) -> (r: Matrix3)
    ensures
        r@ == intrinsic_model(f@, w@, h@),
{
    let scale = viewport_scale_matrix(w, h);
    let translate = principal_point_matrix();
    let flip = flip_matrix();
    let focal = focal_length_matrix(f);
    scale.mul_mat3(&translate).mul_mat3(&flip).mul_mat3(&focal)
}

/// The rotation about the vertical axis, from the cosine and sine of the
/// yaw angle.
pub fn rotation_y_matrix(c: FractionalType, s: FractionalType) -> (r: Matrix3)
    ensures
        r@ == rotation_y_model(c@, s@),
{
    let o = FractionalType::from_num(1);
    let z = FractionalType::zero();
    Matrix3 { e: [[c, z, s], [z, o, z], [s.neg(), z, c]] }
}

/// The rotation about the horizontal axis, from the cosine and sine of the
/// pitch angle.
pub fn rotation_x_matrix(c: FractionalType, s: FractionalType) -> (r: Matrix3)
    ensures
        r@ == rotation_x_model(c@, s@),
{
    let o = FractionalType::from_num(1);
    let z = FractionalType::zero();
    Matrix3 { e: [[o, z, z], [z, c, s.neg()], [z, s, c]] }
}

/// The world translation by the negated camera position.
pub fn world_translation_matrix(cx: FractionalType, cz: FractionalType) -> (r: Matrix3x4)
    ensures
        r@ == world_translation_model(cx@, cz@),
{
    let o = FractionalType::from_num(1);
    let z = FractionalType::zero();
    Matrix3x4 { e: [[o, z, z, cx.neg()], [z, o, z, z], [z, z, o, cz.neg()]] }
}

/// The full per-frame camera matrix: the intrinsic matrix composed with the
/// pitch rotation, the yaw rotation and the world translation, in that
/// order.
pub fn camera_matrix(
    intrinsic: &Matrix3,
    rx: &Matrix3,
    ry: &Matrix3,
    wt: &Matrix3x4,
) -> (r: Matrix3x4)
    ensures
        r@ == camera_matrix_model(intrinsic@, rx@, ry@, wt@),
{
    intrinsic.mul_mat3(rx).mul_mat3(ry).mul_mat3x4(wt)
}

/// With the camera standing at position (0, 0) and facing (0, 0), a world
/// point (0, 0, d) straight ahead of the camera, at any depth d > 0 small
/// enough that its scaled image coordinates stay representable, projects
/// through the full camera matrix of the 640x480 viewport with focal length
/// one to homogeneous image coordinates whose perspective divide is the
/// exact viewport centre (320, 240).
#[verifier::rlimit(100)]
pub proof fn lemma_straight_ahead_projects_to_center(d: int)
    requires
        0 < d <= 6710886,
    ensures
        ({
            let m = camera_matrix_model(
                intrinsic_model(65536, 41943040, 31457280),
                rotation_x_model(65536, 0),
                rotation_y_model(65536, 0),
                world_translation_model(0, 0),
            );
            let hc = mat3x4_apply_model(m, Vec4Model { x: 0, y: 0, z: d, w: 65536 });
            hc.z == d && fx_div(hc.x, hc.z) == 20971520 && fx_div(hc.y, hc.z) == 15728640
        }),
{
    let m = camera_matrix_model(
        intrinsic_model(65536, 41943040, 31457280),
        rotation_x_model(65536, 0),
        rotation_y_model(65536, 0),
        world_translation_model(0, 0),
    );
    assert(m == Mat3x4Model {
        m00: 20971520,
        m01: 0,
        m02: 20971520,
        m03: 0,
        m10: 0,
        m11: -15728640,
        m12: 15728640,
        m13: 0,
        m20: 0,
        m21: 0,
        m22: 65536,
        m23: 0,
    });
    let hc = mat3x4_apply_model(m, Vec4Model { x: 0, y: 0, z: d, w: 65536 });
    assert(fx_mul(20971520, 0) == 0);
    assert(fx_mul(-15728640, 0) == 0);
    assert(fx_mul(0, 0) == 0);
    assert(fx_mul(0, 65536) == 0);
    assert(fx_add(0, 0) == 0);
    assert((20971520 * d) / 65536 == 320 * d) by {
        assert(20971520 * d == 65536 * (320 * d));
        vstd::arithmetic::div_mod::lemma_div_multiples_vanish(320 * d, 65536);
    }
    assert((15728640 * d) / 65536 == 240 * d) by {
        assert(15728640 * d == 65536 * (240 * d));
        vstd::arithmetic::div_mod::lemma_div_multiples_vanish(240 * d, 65536);
    }
    assert((65536 * d) / 65536 == d) by {
        vstd::arithmetic::div_mod::lemma_div_multiples_vanish(d, 65536);
    }
    lemma_wrap_id(320 * d);
    lemma_wrap_id(240 * d);
    lemma_wrap_id(d);
    lemma_wrap_id(0);
    assert(fx_mul(20971520, d) == 320 * d);
    assert(fx_mul(15728640, d) == 240 * d);
    assert(fx_mul(65536, d) == d);
    assert(hc.x == 320 * d);
    assert(hc.y == 240 * d);
    assert(hc.z == d);
    assert((20971520 * d) / d == 20971520) by {
        vstd::arithmetic::div_mod::lemma_div_multiples_vanish(20971520, d);
    }
    assert((15728640 * d) / d == 15728640) by {
        vstd::arithmetic::div_mod::lemma_div_multiples_vanish(15728640, d);
    }
    assert(320 * d * 65536 == 20971520 * d);
    assert(240 * d * 65536 == 15728640 * d);
    lemma_wrap_id(20971520);
    lemma_wrap_id(15728640);
    assert(fx_div(320 * d, d) == 20971520);
    assert(fx_div(240 * d, d) == 15728640);
}

} // verus!
