use psx_renderer::fractional_type::FractionalType;
use psx_renderer::projection::ScreenVertex;
use psx_renderer::rasterizer::{
    categorize_triangle, rasterize, rasterize_flat_top_triangle, FlatTriangle, Pixel,
    TriangleType,
};

fn sv(x: i32, y: i32) -> ScreenVertex {
    ScreenVertex { x: FractionalType::from_num(x), y: FractionalType::from_num(y) }
}

fn cols_at_row(pixels: &[Pixel], row: i32) -> Vec<i32> {
    let mut cols: Vec<i32> = pixels.iter().filter(|p| p.y == row).map(|p| p.x).collect();
    cols.sort();
    cols
}

#[test]
fn shared_low_row_classifies_as_flat_bottom_with_ordered_roles() {
    // Rows 0, 0, 10: the two row-0 vertices share the numerically smallest
    // row, so the sort direction makes this a flat bottom.
    let v0 = sv(0, 0);
    let v1 = sv(10, 0);
    let v2 = sv(5, 10);
    match categorize_triangle(&v0, &v1, &v2) {
        TriangleType::FlatBottom(t) => {
            assert_eq!(t.v_odd.x.to_num(), 5);
            assert_eq!(t.v_odd.y.to_num(), 10);
            assert_eq!(t.v_left.x.to_num(), 0);
            assert_eq!(t.v_left.y.to_num(), 0);
            assert_eq!(t.v_right.x.to_num(), 10);
            assert_eq!(t.v_right.y.to_num(), 0);
        },
        _ => panic!("expected a flat-bottom classification"),
    }
}

#[test]
fn flat_bottom_fill_spans_left_edge_to_before_right_edge() {
    let v0 = sv(0, 0);
    let v1 = sv(10, 0);
    let v2 = sv(5, 10);
    let mut pixels: Vec<Pixel> = Vec::new();
    rasterize(&v0, &v1, &v2, &mut pixels);
    assert_eq!(pixels.len(), 50);
    // At row 5 the left edge sits at column 2.75 and the right edge at
    // 7.25: centres 3.5, 4.5, 5.5, 6.5 are inside, so pixels 3..=6.
    assert_eq!(cols_at_row(&pixels, 5), vec![3, 4, 5, 6]);
    assert_eq!(cols_at_row(&pixels, 0), vec![0, 1, 2, 3, 4, 5, 6, 7, 8, 9]);
    assert!(pixels.iter().all(|p| p.y >= 0 && p.y <= 8));
}

#[test]
fn shared_high_row_classifies_as_flat_top() {
    let v0 = sv(0, 10);
    let v1 = sv(10, 10);
    let v2 = sv(5, 0);
    match categorize_triangle(&v0, &v1, &v2) {
        TriangleType::FlatTop(t) => {
            assert_eq!(t.v_odd.y.to_num(), 0);
            assert_eq!(t.v_left.x.to_num(), 0);
            assert_eq!(t.v_right.x.to_num(), 10);
        },
        _ => panic!("expected a flat-top classification"),
    }
}

#[test]
fn flat_top_triangles_are_filled_too() {
    let tri = FlatTriangle { v_odd: sv(5, 0), v_left: sv(0, 10), v_right: sv(10, 10) };
    let mut pixels: Vec<Pixel> = Vec::new();
    rasterize_flat_top_triangle(&tri, &mut pixels);
    assert_eq!(pixels.len(), 50);
    assert_eq!(cols_at_row(&pixels, 5), vec![2, 3, 4, 5, 6, 7]);
    assert_eq!(cols_at_row(&pixels, 9), vec![0, 1, 2, 3, 4, 5, 6, 7, 8, 9]);
    assert!(pixels.iter().all(|p| p.y >= 1 && p.y <= 9));
}

#[test]
fn flat_pair_is_ordered_by_column_whatever_the_argument_order() {
    let v0 = sv(10, 0);
    let v1 = sv(5, 10);
    let v2 = sv(0, 0);
    match categorize_triangle(&v0, &v1, &v2) {
        TriangleType::FlatBottom(t) => {
            assert_eq!(t.v_left.x.to_num(), 0);
            assert_eq!(t.v_right.x.to_num(), 10);
            assert_eq!(t.v_odd.y.to_num(), 10);
        },
        _ => panic!("expected a flat-bottom classification"),
    }
}

#[test]
fn coincident_vertices_are_degenerate_and_draw_nothing() {
    let v0 = sv(3, 3);
    let v1 = sv(3, 3);
    let v2 = sv(7, 1);
    assert!(matches!(categorize_triangle(&v0, &v1, &v2), TriangleType::NotATriangle));
    let mut pixels: Vec<Pixel> = Vec::new();
    rasterize(&v0, &v1, &v2, &mut pixels);
    assert_eq!(pixels.len(), 0);
}

#[test]
fn horizontally_collinear_vertices_are_degenerate() {
    let v0 = sv(0, 5);
    let v1 = sv(3, 5);
    let v2 = sv(9, 5);
    assert!(matches!(categorize_triangle(&v0, &v1, &v2), TriangleType::NotATriangle));
    let mut pixels: Vec<Pixel> = Vec::new();
    rasterize(&v0, &v1, &v2, &mut pixels);
    assert_eq!(pixels.len(), 0);
}

#[test]
fn general_triangle_splits_at_the_mid_row() {
    // Sorted by descending row: top (5,10), mid (10,4), bottom (0,0); the
    // long edge crosses row 4 at column 2, left of the mid vertex.
    let v0 = sv(0, 0);
    let v1 = sv(10, 4);
    let v2 = sv(5, 10);
    match categorize_triangle(&v0, &v1, &v2) {
        TriangleType::NonFlat(nf) => {
            assert_eq!(nf.top.y.to_num(), 10);
            assert_eq!(nf.mid.y.to_num(), 4);
            assert_eq!(nf.bottom.y.to_num(), 0);
        },
        _ => panic!("expected a general classification"),
    }
    let mut pixels: Vec<Pixel> = Vec::new();
    rasterize(&v0, &v1, &v2, &mut pixels);
    assert_eq!(pixels.len(), 40);
    // The two flat pieces meet at the mid row with no gap and no overlap.
    assert_eq!(cols_at_row(&pixels, 3), vec![2, 3, 4, 5, 6, 7, 8]);
    assert_eq!(cols_at_row(&pixels, 4), vec![2, 3, 4, 5, 6, 7, 8, 9]);
    assert_eq!(cols_at_row(&pixels, 9), Vec::<i32>::new());
    let mut seen = pixels.clone();
    seen.sort_by_key(|p| (p.y, p.x));
    seen.dedup();
    assert_eq!(seen.len(), pixels.len());
}

#[test]
fn triangles_sharing_an_edge_never_draw_the_same_pixel() {
    // Two triangles share the vertical edge (0,0)-(0,2), third vertices on
    // opposite sides. The sampled centres at columns -0.5 and 0.5 belong to
    // pixels -1 and 0: each fill keeps to its own side of the edge.
    let mut left: Vec<Pixel> = Vec::new();
    rasterize(&sv(0, 0), &sv(0, 2), &sv(-2, 1), &mut left);
    let mut right: Vec<Pixel> = Vec::new();
    rasterize(&sv(0, 0), &sv(0, 2), &sv(2, 1), &mut right);
    let mut left_sorted: Vec<(i32, i32)> = left.iter().map(|p| (p.x, p.y)).collect();
    left_sorted.sort();
    let mut right_sorted: Vec<(i32, i32)> = right.iter().map(|p| (p.x, p.y)).collect();
    right_sorted.sort();
    assert_eq!(left_sorted, vec![(-1, 0), (-1, 1)]);
    assert_eq!(right_sorted, vec![(0, 0), (0, 1)]);
    assert!(left_sorted.iter().all(|p| !right_sorted.contains(p)));
}

#[test]
fn negative_coordinates_floor_to_their_own_pixels() {
    // A fill crossing the axes: every sampled centre lands in the pixel
    // whose area holds it, with no duplicate draws.
    let mut pixels: Vec<Pixel> = Vec::new();
    rasterize(&sv(-2, -1), &sv(1, -1), &sv(0, 1), &mut pixels);
    let mut seen: Vec<(i32, i32)> = pixels.iter().map(|p| (p.x, p.y)).collect();
    seen.sort();
    assert_eq!(seen, vec![(-2, -1), (-1, -1), (-1, 0), (0, -1)]);
}

#[test]
fn rasterize_appends_after_existing_pixels() {
    let mut pixels: Vec<Pixel> = vec![Pixel { x: -7, y: -7 }];
    rasterize(&sv(0, 0), &sv(10, 0), &sv(5, 10), &mut pixels);
    assert_eq!(pixels.len(), 51);
    assert_eq!(pixels[0], Pixel { x: -7, y: -7 });
}
