use psx_renderer::fractional_type::FractionalType;
use psx_renderer::linalg::Vector3;
use psx_renderer::projection::{
    homogenous_image_coordinates_to_image_coordinates, to_proper_inf, PROJECTION_SENTINEL_MAGNITUDE,
};

fn fx(n: i32) -> FractionalType {
    FractionalType::from_num(n)
}

#[test]
fn perspective_divide_on_a_regular_vertex() {
    let h = Vector3 { x: fx(6), y: fx(-9), z: fx(3) };
    let v = homogenous_image_coordinates_to_image_coordinates(&h);
    assert_eq!(v.x.to_fixed(), 2 * 65536);
    assert_eq!(v.y.to_fixed(), -3 * 65536);
}

#[test]
fn zero_depth_with_positive_numerator_maps_to_positive_sentinel() {
    let h = Vector3 { x: fx(7), y: fx(-2), z: FractionalType::zero() };
    let v = homogenous_image_coordinates_to_image_coordinates(&h);
    assert_eq!(v.x.to_fixed(), PROJECTION_SENTINEL_MAGNITUDE * 65536);
    assert_eq!(v.y.to_fixed(), -PROJECTION_SENTINEL_MAGNITUDE * 65536);
}

#[test]
fn zero_numerator_counts_as_nonnegative_for_the_sentinel() {
    let h = Vector3 { x: fx(0), y: fx(0), z: fx(0) };
    let v = homogenous_image_coordinates_to_image_coordinates(&h);
    assert_eq!(v.x.to_fixed(), PROJECTION_SENTINEL_MAGNITUDE * 65536);
    assert_eq!(v.y.to_fixed(), PROJECTION_SENTINEL_MAGNITUDE * 65536);
}

#[test]
fn sentinel_carries_the_sign_of_its_input() {
    assert_eq!(to_proper_inf(fx(123)).to_num(), PROJECTION_SENTINEL_MAGNITUDE);
    assert_eq!(to_proper_inf(fx(0)).to_num(), PROJECTION_SENTINEL_MAGNITUDE);
    assert_eq!(
        to_proper_inf(FractionalType::from_fixed(-1)).to_num(),
        -PROJECTION_SENTINEL_MAGNITUDE
    );
}
