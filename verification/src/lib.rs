//! A software 3D renderer built on a deterministic 16.16 fixed-point number
//! type: camera matrices, perspective projection and a scanline triangle
//! rasterizer, all independent of host floating-point behaviour.

pub mod camera;
pub mod fractional_type;
pub mod linalg;
pub mod projection;
pub mod rasterizer;
pub mod scene;
