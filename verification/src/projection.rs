//! Projection stage: perspective divide from homogeneous image coordinates
//! to 2D device coordinates, with an explicit policy for the singular case
//! of a vertex on the camera's focal plane.

use crate::fractional_type::{fx_div, FractionalType};
use crate::linalg::{mat3x4_apply_model, Matrix3x4, Vec3Model, Vector3, Vector4};
use vstd::prelude::*;

verus! {

/// Magnitude, in whole units, of the bounded sentinel device coordinate
/// that stands in for an infinite projection: large enough to land far off
/// any practical raster target, small enough that a pixel sink never sizes
/// a buffer by it.
pub const PROJECTION_SENTINEL_MAGNITUDE: i32 = 10000;

/// A 2D point in fixed-point device coordinates: one projected vertex on
/// the raster target. The view is the pair of raw values (column, row).
#[derive(Clone, Copy)]
pub struct ScreenVertex {
    pub x: FractionalType,
    pub y: FractionalType,
}

impl View for ScreenVertex {
    type V = (int, int);

    open spec fn view(&self) -> (int, int) {
        (self.x@, self.y@)
    }
}

/// Raw value of the sentinel coordinate carrying the sign of the given raw
/// value: nonnegative input maps to the positive sentinel.
pub open spec fn sentinel_model(v: int) -> int {
    if v >= 0 {
        (PROJECTION_SENTINEL_MAGNITUDE as int) * 65536
    } else {
        -(PROJECTION_SENTINEL_MAGNITUDE as int) * 65536
    }
}

/// Model of the perspective divide with the sentinel policy.
pub open spec fn project_model(h: Vec3Model) -> (int, int) {
    if h.z == 0 {
        (sentinel_model(h.x), sentinel_model(h.y))
    } else {
        (fx_div(h.x, h.z), fx_div(h.y, h.z))
    }
}

/// The bounded stand-in for an infinite device coordinate, with the sign of
/// the given value.
pub fn to_proper_inf(num: FractionalType) -> (r: FractionalType)
    ensures
        r@ == sentinel_model(num@),
{
    let z = FractionalType::zero();
    if z <= num {
        FractionalType::from_num(PROJECTION_SENTINEL_MAGNITUDE)
    } else {
        FractionalType::from_num(-PROJECTION_SENTINEL_MAGNITUDE)
    }
}

/// Perspective divide: homogeneous image coordinates (ix, iy, iw) become
/// the device coordinates (ix/iw, iy/iw). A vertex with iw equal to zero
/// lies on the camera's focal plane and has no finite projection: it maps
/// to the sentinel coordinates of matching sign, never to a crash.
pub fn homogenous_image_coordinates_to_image_coordinates(
    homogeneous_coordinates: &Vector3,
) -> (r: ScreenVertex)
    ensures
        r@ == project_model(homogeneous_coordinates@),
{
    if homogeneous_coordinates.z.is_zero() {
        ScreenVertex {
            x: to_proper_inf(homogeneous_coordinates.x),
            y: to_proper_inf(homogeneous_coordinates.y),
        }
    } else {
        ScreenVertex {
            x: homogeneous_coordinates.x.div(homogeneous_coordinates.z),
            y: homogeneous_coordinates.y.div(homogeneous_coordinates.z),
        }
    }
}

/// Project one homogeneous world vertex through the camera matrix down to
/// device coordinates: the whole per-vertex work of the projection stage.
pub fn project_vertex(camera: &Matrix3x4, world: &Vector4) -> (r: ScreenVertex)
    ensures
        r@ == project_model(mat3x4_apply_model(camera@, world@)),
{
    let h = camera.apply(world);
    homogenous_image_coordinates_to_image_coordinates(&h)
}

} // verus!
