use psx_renderer::camera::{
    camera_matrix, intrinsic_matrix, rotation_x_matrix, rotation_y_matrix,
    world_translation_matrix,
};
use psx_renderer::fractional_type::FractionalType;
use psx_renderer::linalg::{Matrix3x4, Vector3};
use psx_renderer::scene::{
    rasterize_mesh, rasterize_polygon, vertex_overlay, wireframe_mesh, Group, LineSegment, Mesh,
    Polygon, SceneObject,
};

fn fx(n: i32) -> FractionalType {
    FractionalType::from_num(n)
}

fn world(x: i32, y: i32, z: i32) -> Vector3 {
    Vector3 { x: fx(x), y: fx(y), z: fx(z) }
}

fn reference_camera() -> Matrix3x4 {
    let intrinsic = intrinsic_matrix(fx(1), fx(640), fx(480));
    let rx = rotation_x_matrix(fx(1), fx(0));
    let ry = rotation_y_matrix(fx(1), fx(0));
    let wt = world_translation_matrix(fx(0), fx(0));
    camera_matrix(&intrinsic, &rx, &ry, &wt)
}

fn single_triangle_mesh() -> Mesh {
    Mesh {
        positions: vec![world(-1, -1, 5), world(1, -1, 5), world(0, 1, 5)],
        objects: vec![SceneObject {
            groups: vec![Group { polys: vec![Polygon { vertex_indices: vec![0, 1, 2] }] }],
        }],
    }
}

#[test]
fn single_triangle_mesh_fills_the_predicted_pixel_range() {
    // The vertices project to (256, 288), (384, 288) and (320, 192): a
    // flat-top triangle spanning pixel rows 193..=287, centred on column
    // 320, widest at its lowest row.
    let mesh = single_triangle_mesh();
    let cm = reference_camera();
    let pixels = rasterize_mesh(&mesh, &cm);
    assert_eq!(pixels.len(), 6144);
    let top = pixels.iter().map(|p| p.y).min().unwrap();
    let bottom = pixels.iter().map(|p| p.y).max().unwrap();
    assert_eq!(top, 193);
    assert_eq!(bottom, 287);
    let mut widest_row = 0;
    let mut widest_count = 0;
    for row in top..=bottom {
        let count = pixels.iter().filter(|p| p.y == row).count();
        if count > widest_count {
            widest_count = count;
            widest_row = row;
        }
    }
    assert_eq!(widest_row, 287);
    let cols: Vec<i32> = pixels.iter().filter(|p| p.y == 287).map(|p| p.x).collect();
    assert_eq!(cols.iter().min().copied(), Some(256));
    assert_eq!(cols.iter().max().copied(), Some(383));
    assert_eq!(cols.len(), 128);
}

#[test]
fn short_polygons_draw_nothing() {
    let mesh = Mesh {
        positions: vec![world(-1, -1, 5), world(1, -1, 5)],
        objects: vec![SceneObject {
            groups: vec![Group { polys: vec![Polygon { vertex_indices: vec![0, 1] }] }],
        }],
    };
    let cm = reference_camera();
    let pixels = rasterize_mesh(&mesh, &cm);
    assert_eq!(pixels.len(), 0);
}

#[test]
fn polygon_fill_appends_to_the_given_buffer() {
    let mesh = single_triangle_mesh();
    let cm = reference_camera();
    let mut pixels = Vec::new();
    rasterize_polygon(&mesh.positions, &mesh.objects[0].groups[0].polys[0], &cm, &mut pixels);
    assert_eq!(pixels.len(), 6144);
}

#[test]
fn wireframe_of_a_triangle_is_its_three_edges() {
    let mesh = single_triangle_mesh();
    let cm = reference_camera();
    let segments = wireframe_mesh(&mesh, &cm);
    assert_eq!(segments.len(), 3);
    assert_eq!(segments[0], LineSegment { x0: 256, y0: 288, x1: 384, y1: 288 });
    assert_eq!(segments[1], LineSegment { x0: 256, y0: 288, x1: 320, y1: 192 });
    assert_eq!(segments[2], LineSegment { x0: 384, y0: 288, x1: 320, y1: 192 });
}

#[test]
fn vertex_overlay_keeps_only_visible_vertices() {
    let cm = reference_camera();
    let positions = vec![
        world(-1, -1, 5), // lands at (256, 288)
        world(0, 1, 5),   // lands at (320, 192)
        world(0, 0, 0),   // on the focal plane: skipped
        world(30, 0, 5),  // projects far off the right edge: dropped
    ];
    let pixels = vertex_overlay(&positions, &cm, 640, 480);
    assert_eq!(pixels.len(), 2);
    assert_eq!((pixels[0].x, pixels[0].y), (256, 288));
    assert_eq!((pixels[1].x, pixels[1].y), (320, 192));
}
