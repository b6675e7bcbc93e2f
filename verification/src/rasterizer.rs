//! Triangle rasterizer: a pure classification-and-fill pipeline per
//! triangle. A screen triangle is first checked for degeneracy, then
//! classified by its shape against the scanline direction, and filled row
//! by row with half-pixel-centre sampling and reciprocal-slope edge
//! walking. Row values grow downward on the raster target; the
//! classification names follow the descending row sort, so the flat edge of
//! a "flat top" triangle carries the numerically largest row value.

use crate::fractional_type::{
    fx_add, fx_ceil, fx_div, fx_mul, fx_sub, fx_to_int, lemma_sub_nonzero, lemma_wrap_id,
    FractionalType,
};
use crate::projection::ScreenVertex;
use vstd::prelude::*;

verus! {

broadcast use crate::fractional_type::lemma_view_in_range;

/// One device pixel emitted by the rasterizer, in whole pixel coordinates.
#[derive(Clone, Copy, Debug, PartialEq, Eq, Structural)]
pub struct Pixel {
    pub x: i32,
    pub y: i32,
}

/// A triangle with one horizontal edge: the odd vertex stands off that
/// edge, which runs from the left vertex to the right vertex.
#[derive(Clone, Copy)]
pub struct FlatTriangle {
    pub v_odd: ScreenVertex,
    pub v_left: ScreenVertex,
    pub v_right: ScreenVertex,
}

/// A triangle with no horizontal edge, vertices ordered by descending row
/// value: `top` carries the numerically largest row.
#[derive(Clone, Copy)]
pub struct NonFlatTriangle {
    pub top: ScreenVertex,
    pub mid: ScreenVertex,
    pub bottom: ScreenVertex,
}

/// The classification of a screen triangle by shape.
pub enum TriangleType {
    FlatTop(FlatTriangle),
    FlatBottom(FlatTriangle),
    NonFlat(NonFlatTriangle),
    NotATriangle,
}

/// Two projected vertices occupy the same position in both coordinates.
pub open spec fn coincide(a: (int, int), b: (int, int)) -> bool {
    a.0 == b.0 && a.1 == b.1
}

/// The degenerate inputs the rasterizer skips: a repeated vertex, or all
/// three vertices on one row (a zero-height fill).
pub open spec fn degenerate(a: (int, int), b: (int, int), c: (int, int)) -> bool {
    coincide(a, b) || coincide(a, c) || coincide(c, b) || (a.1 == b.1 && b.1 == c.1)
}

/// Exactly two vertices share the numerically largest row value.
pub open spec fn flat_top_case(a: (int, int), b: (int, int), c: (int, int)) -> bool {
    (a.1 == b.1 && a.1 > c.1) || (a.1 == c.1 && a.1 > b.1) || (b.1 == c.1 && b.1 > a.1)
}

/// Exactly two vertices share the numerically smallest row value.
pub open spec fn flat_bottom_case(a: (int, int), b: (int, int), c: (int, int)) -> bool {
    (a.1 == b.1 && a.1 < c.1) || (a.1 == c.1 && a.1 < b.1) || (b.1 == c.1 && b.1 < a.1)
}

/// The three vertices ordered by descending row value, ties keeping the
/// earlier argument first.
pub open spec fn sorted_by_row(a: (int, int), b: (int, int), c: (int, int)) -> (
    (int, int),
    (int, int),
    (int, int),
) {
    if a.1 >= b.1 {
        if b.1 >= c.1 {
            (a, b, c)
        } else if a.1 >= c.1 {
            (a, c, b)
        } else {
            (c, a, b)
        }
    } else {
        if a.1 >= c.1 {
            (b, a, c)
        } else if b.1 >= c.1 {
            (b, c, a)
        } else {
            (c, b, a)
        }
    }
}

/// The odd vertex together with the flat pair ordered by column, left
/// first.
pub open spec fn order_pair(odd: (int, int), p: (int, int), q: (int, int)) -> (
    (int, int),
    (int, int),
    (int, int),
) {
    if p.0 < q.0 {
        (odd, p, q)
    } else {
        (odd, q, p)
    }
}

/// Roles (odd, left, right) of a flat-top triangle: the flat pair shares
/// the largest row, the odd vertex sits above it on the target.
pub open spec fn flat_top_roles(a: (int, int), b: (int, int), c: (int, int)) -> (
    (int, int),
    (int, int),
    (int, int),
) {
    let (s0, s1, s2) = sorted_by_row(a, b, c);
    order_pair(s2, s0, s1)
}

/// Roles (odd, left, right) of a flat-bottom triangle: the flat pair shares
/// the smallest row, the odd vertex sits below it on the target.
pub open spec fn flat_bottom_roles(a: (int, int), b: (int, int), c: (int, int)) -> (
    (int, int),
    (int, int),
    (int, int),
) {
    let (s0, s1, s2) = sorted_by_row(a, b, c);
    order_pair(s0, s1, s2)
}

/// Classify three projected vertices. Degenerate input is rejected rather
/// than filled; otherwise the triangle is a flat-top, a flat-bottom, or a
/// general triangle carrying its vertices sorted by descending row.
pub fn categorize_triangle(v0: &ScreenVertex, v1: &ScreenVertex, v2: &ScreenVertex) -> (r:
    TriangleType)
    ensures
        match r {
            TriangleType::NotATriangle => degenerate(v0@, v1@, v2@),
            TriangleType::FlatTop(t) => !degenerate(v0@, v1@, v2@) && flat_top_case(
                v0@,
                v1@,
                v2@,
            ) && (t.v_odd@, t.v_left@, t.v_right@) == flat_top_roles(v0@, v1@, v2@),
            TriangleType::FlatBottom(t) => !degenerate(v0@, v1@, v2@) && flat_bottom_case(
                v0@,
                v1@,
                v2@,
            ) && (t.v_odd@, t.v_left@, t.v_right@) == flat_bottom_roles(v0@, v1@, v2@),
            TriangleType::NonFlat(nf) => !degenerate(v0@, v1@, v2@) && !flat_top_case(
                v0@,
                v1@,
                v2@,
            ) && !flat_bottom_case(v0@, v1@, v2@) && (nf.top@, nf.mid@, nf.bottom@)
                == sorted_by_row(v0@, v1@, v2@),
        },
{
    if v0.x == v1.x && v0.y == v1.y {
        return TriangleType::NotATriangle;
    }
    if v0.x == v2.x && v0.y == v2.y {
        return TriangleType::NotATriangle;
    }
    if v2.x == v1.x && v2.y == v1.y {
        return TriangleType::NotATriangle;
    }
    if v0.y == v1.y && v1.y == v2.y {
        return TriangleType::NotATriangle;
    }
    let (a, b, c): (ScreenVertex, ScreenVertex, ScreenVertex) = if !(v0.y < v1.y) {
        if !(v1.y < v2.y) {
            (*v0, *v1, *v2)
        } else if !(v0.y < v2.y) {
            (*v0, *v2, *v1)
        } else {
            (*v2, *v0, *v1)
        }
    } else {
        if !(v0.y < v2.y) {
            (*v1, *v0, *v2)
        } else if !(v1.y < v2.y) {
            (*v1, *v2, *v0)
        } else {
            (*v2, *v1, *v0)
        }
    };
    if a.y == b.y {
        if a.x < b.x {
            TriangleType::FlatTop(FlatTriangle { v_odd: c, v_left: a, v_right: b })
        } else {
            TriangleType::FlatTop(FlatTriangle { v_odd: c, v_left: b, v_right: a })
        }
    } else if b.y == c.y {
        if b.x < c.x {
            TriangleType::FlatBottom(FlatTriangle { v_odd: a, v_left: b, v_right: c })
        } else {
            TriangleType::FlatBottom(FlatTriangle { v_odd: a, v_left: c, v_right: b })
        }
    } else {
        TriangleType::NonFlat(NonFlatTriangle { top: a, mid: b, bottom: c })
    }
}

/// Snap a raw coordinate to the first half-integer pixel centre at or
/// after it: `ceil(v - 1/2) + 1/2`. Sampling at pixel centres rather than
/// corners keeps fills of adjacent triangles gap-free and overlap-free.
pub open spec fn snap_to_center(v: int) -> int {
    fx_add(fx_ceil(fx_sub(v, 32768)), 32768)
}

/// Snapping lands on the half-integer pixel-centre grid: away from the
/// ends of the representable range, the snapped coordinate is the first
/// half-integer centre at or after the given one. Both fills and both
/// sides of a split triangle sample through this one rule, which is what
/// keeps adjacent fills gap-free and overlap-free along a shared edge.
pub proof fn lemma_snap_is_half_center(v: int)
    requires
        -0x8000_0000 + 32768 <= v <= 0x8000_0000 - 98304,
    ensures
        snap_to_center(v) % 65536 == 32768,
        v <= snap_to_center(v) < v + 65536,
{
    let x = v - 32768;
    lemma_wrap_id(x);
    let m = x % 65536;
    let c = x + ((65536 - m) % 65536);
    if m == 0 {
        vstd::arithmetic::div_mod::lemma_mod_self_0(65536);
    } else {
        vstd::arithmetic::div_mod::lemma_small_mod((65536 - m) as nat, 65536nat);
    }
    lemma_wrap_id(c);
    assert(fx_ceil(x) == c);
    vstd::arithmetic::div_mod::lemma_fundamental_div_mod(x, 65536);
    assert(c % 65536 == 0) by {
        if m == 0 {
            vstd::arithmetic::div_mod::lemma_mod_multiples_basic(x / 65536, 65536);
        } else {
            assert(c == 65536 * (x / 65536) + 65536);
            vstd::arithmetic::div_mod::lemma_mod_multiples_basic(x / 65536 + 1, 65536);
            assert(65536 * (x / 65536 + 1) == c);
        }
    }
    lemma_wrap_id(c + 32768);
    assert(snap_to_center(v) == c + 32768);
    vstd::arithmetic::div_mod::lemma_mod_adds(c, 32768, 65536);
    vstd::arithmetic::div_mod::lemma_small_mod(32768nat, 65536nat);
}

/// Reciprocal slope of the edge between the odd vertex and one flat-edge
/// endpoint: columns advanced per row walked.
pub open spec fn recip_slope(o: (int, int), e: (int, int)) -> int {
    fx_div(fx_sub(o.0, e.0), fx_sub(o.1, e.1))
}

/// Column where the edge from the odd vertex to the endpoint crosses the
/// given row.
pub open spec fn edge_column(o: (int, int), e: (int, int), row: int) -> int {
    fx_sub(fx_add(fx_mul(recip_slope(o, e), row), o.0), fx_mul(recip_slope(o, e), o.1))
}

/// The device pixel whose area holds the point (col, row): both
/// coordinates floored to the pixel grid.
pub open spec fn pixel_at(col: int, row: int) -> Pixel {
    Pixel { x: fx_to_int(col) as i32, y: fx_to_int(row) as i32 }
}

/// Pixels of one scanline row: centres from the snapped left intercept,
/// one pixel apart, strictly before the right intercept.
pub open spec fn span_pixels(col: int, guard: int, row: int) -> Seq<Pixel>
    decreases (guard - col + 65535) / 65536,
{
    if col >= guard {
        Seq::empty()
    } else {
        seq![pixel_at(col, row)] + span_pixels(col + 65536, guard, row)
    }
}

/// Pixels of every scanline row from `row` up to, excluding, `y_hi`,
/// between the edges from the odd vertex to the left and right endpoints.
pub open spec fn rows_pixels(
    o: (int, int),
    l: (int, int),
    r: (int, int),
    row: int,
    y_hi: int,
) -> Seq<Pixel>
    decreases (y_hi - row + 65535) / 65536,
{
    if row >= y_hi {
        Seq::empty()
    } else {
        span_pixels(snap_to_center(edge_column(o, l, row)), edge_column(o, r, row), row)
            + rows_pixels(o, l, r, row + 65536, y_hi)
    }
}

/// Every pixel of a flat-top fill: scanline rows from the odd vertex's
/// snapped row up to, excluding, the flat edge's row below it.
pub open spec fn flat_top_fill(o: (int, int), l: (int, int), r: (int, int)) -> Seq<Pixel> {
    rows_pixels(o, l, r, snap_to_center(o.1), l.1)
}

/// Every pixel of a flat-bottom fill: scanline rows from the flat edge's
/// snapped row up to, excluding, the odd vertex's row below it.
pub open spec fn flat_bottom_fill(o: (int, int), l: (int, int), r: (int, int)) -> Seq<Pixel> {
    rows_pixels(o, l, r, snap_to_center(l.1), o.1)
}

/// Every pixel of one span lies on the device row holding the sampled
/// row's point.
proof fn lemma_span_pixels_row(col: int, guard: int, row: int)
    requires
        -0x8000_0000 <= row < 0x8000_0000,
    ensures
        forall|k: int|
            0 <= k < span_pixels(col, guard, row).len() ==> (#[trigger] span_pixels(
                col,
                guard,
                row,
            )[k]).y as int == row / 65536,
    decreases (guard - col + 65535) / 65536,
{
    if col < guard {
        lemma_span_pixels_row(col + 65536, guard, row);
        vstd::arithmetic::div_mod::lemma_div_is_ordered(-0x8000_0000, row, 65536);
        vstd::arithmetic::div_mod::lemma_div_is_ordered(row, 0x7FFF_FFFF, 65536);
        assert forall|k: int| 0 <= k < span_pixels(col, guard, row).len() implies (
        #[trigger] span_pixels(col, guard, row)[k]).y as int == row / 65536 by {
            if k > 0 {
                assert(span_pixels(col, guard, row)[k] == span_pixels(
                    col + 65536,
                    guard,
                    row,
                )[k - 1]);
            }
        }
    }
}

/// Within one span the emitted pixels sit on consecutive device columns:
/// stepping a whole pixel from one sampled centre lands in the next pixel,
/// so a span never draws a column twice.
pub proof fn lemma_span_pixels_columns_consecutive(col: int, guard: int, row: int)
    requires
        -0x8000_0000 <= col,
        guard < 0x8000_0000,
    ensures
        forall|k: int|
            0 <= k < span_pixels(col, guard, row).len() ==> (#[trigger] span_pixels(
                col,
                guard,
                row,
            )[k]).x as int == col / 65536 + k,
    decreases (guard - col + 65535) / 65536,
{
    if col < guard {
        lemma_span_pixels_columns_consecutive(col + 65536, guard, row);
        vstd::arithmetic::div_mod::lemma_div_is_ordered(-0x8000_0000, col, 65536);
        vstd::arithmetic::div_mod::lemma_div_is_ordered(col, 0x7FFF_FFFF, 65536);
        vstd::arithmetic::div_mod::lemma_fundamental_div_mod(col, 65536);
        let q = col / 65536;
        vstd::arithmetic::div_mod::lemma_fundamental_div_mod_converse_div(
            col + 65536,
            65536,
            q + 1,
            col % 65536,
        );
        assert forall|k: int| 0 <= k < span_pixels(col, guard, row).len() implies (
        #[trigger] span_pixels(col, guard, row)[k]).x as int == col / 65536 + k by {
            if k > 0 {
                assert(span_pixels(col, guard, row)[k] == span_pixels(
                    col + 65536,
                    guard,
                    row,
                )[k - 1]);
            }
        }
    }
}

/// A walk starting on a half-integer centre keeps every emitted pixel row
/// between the floor of its first sampled row and the floor of the last
/// half-integer centre strictly below its end row.
proof fn lemma_rows_pixels_row_range(
    o: (int, int),
    l: (int, int),
    r: (int, int),
    row: int,
    y_hi: int,
)
    requires
        -0x8000_0000 <= row,
        y_hi < 0x8000_0000,
        row % 65536 == 32768,
    ensures
        forall|k: int|
            0 <= k < rows_pixels(o, l, r, row, y_hi).len() ==> row / 65536 <= (
            #[trigger] rows_pixels(o, l, r, row, y_hi)[k]).y as int <= (y_hi - 32769) / 65536,
    decreases (y_hi - row + 65535) / 65536,
{
    if row < y_hi {
        vstd::arithmetic::div_mod::lemma_mod_add_multiples_vanish(row, 65536);
        lemma_rows_pixels_row_range(o, l, r, row + 65536, y_hi);
        lemma_span_pixels_row(
            snap_to_center(edge_column(o, l, row)),
            edge_column(o, r, row),
            row,
        );
        vstd::arithmetic::div_mod::lemma_fundamental_div_mod(row, 65536);
        let q = row / 65536;
        assert(row == 65536 * q + 32768);
        vstd::arithmetic::div_mod::lemma_div_is_ordered(65536 * q, y_hi - 32769, 65536);
        vstd::arithmetic::div_mod::lemma_div_multiples_vanish(q, 65536);
        vstd::arithmetic::div_mod::lemma_fundamental_div_mod_converse_div(
            row + 65536,
            65536,
            q + 1,
            32768,
        );
        let block = span_pixels(
            snap_to_center(edge_column(o, l, row)),
            edge_column(o, r, row),
            row,
        );
        assert forall|k: int| 0 <= k < rows_pixels(o, l, r, row, y_hi).len() implies row / 65536
            <= (#[trigger] rows_pixels(o, l, r, row, y_hi)[k]).y as int <= (y_hi - 32769)
            / 65536 by {
            if k >= block.len() {
                assert(rows_pixels(o, l, r, row, y_hi)[k] == rows_pixels(
                    o,
                    l,
                    r,
                    row + 65536,
                    y_hi,
                )[k - block.len()]);
            }
        }
    }
}

/// The two pieces of a split general triangle walk disjoint scanline rows:
/// both sample half-integer centres through the same snapping rule, so
/// every pixel of the piece above the split row lands on a strictly
/// smaller device row than every pixel of the piece below it. This is the
/// overlap-free half of the shared-edge rule along the split row.
pub proof fn lemma_split_pieces_rows_disjoint(
    t: (int, int),
    m: (int, int),
    b: (int, int),
    lft: (int, int),
    rgt: (int, int),
)
    requires
        lft.1 == m.1,
        -0x8000_0000 + 32768 <= b.1 <= 0x8000_0000 - 98304,
        -0x8000_0000 + 32768 <= m.1 <= 0x8000_0000 - 98304,
        t.1 < 0x8000_0000,
    ensures
        forall|i: int, j: int|
            0 <= i < flat_top_fill(b, lft, rgt).len() && 0 <= j < flat_bottom_fill(
                t,
                lft,
                rgt,
            ).len() ==> (#[trigger] flat_top_fill(b, lft, rgt)[i]).y < (
            #[trigger] flat_bottom_fill(t, lft, rgt)[j]).y,
{
    lemma_snap_is_half_center(b.1);
    lemma_snap_is_half_center(m.1);
    lemma_rows_pixels_row_range(b, lft, rgt, snap_to_center(b.1), m.1);
    lemma_rows_pixels_row_range(t, lft, rgt, snap_to_center(m.1), t.1);
    let s = snap_to_center(m.1);
    let q = s / 65536;
    vstd::arithmetic::div_mod::lemma_fundamental_div_mod(s, 65536);
    assert(s == 65536 * q + 32768);
    assert(m.1 - 32769 <= 65536 * q - 1);
    vstd::arithmetic::div_mod::lemma_div_is_ordered(m.1 - 32769, 65536 * q - 1, 65536);
    vstd::arithmetic::div_mod::lemma_fundamental_div_mod_converse_div(
        65536 * q - 1,
        65536,
        q - 1,
        65535,
    );
}

/// Column where the long edge of a general triangle, from its top to its
/// bottom vertex, crosses the mid vertex's row.
pub open spec fn split_column(t: (int, int), m: (int, int), b: (int, int)) -> int {
    edge_column(t, b, m.1)
}

/// Every pixel of a general triangle's fill: split at the mid row into a
/// flat-bottom piece against the top vertex and a flat-top piece against
/// the bottom vertex, the synthetic split vertex on the side its column
/// says, and the flat-bottom piece emitted first.
pub open spec fn non_flat_fill(t: (int, int), m: (int, int), b: (int, int)) -> Seq<Pixel> {
    let s = (split_column(t, m, b), m.1);
    if s.0 > m.0 {
        flat_bottom_fill(t, m, s) + flat_top_fill(b, m, s)
    } else {
        flat_bottom_fill(t, s, m) + flat_top_fill(b, s, m)
    }
}

/// Every pixel the rasterizer emits for three projected vertices: nothing
/// for a degenerate triangle, one flat fill, or the two fills of a split
/// general triangle.
pub open spec fn rasterize_model(a: (int, int), b: (int, int), c: (int, int)) -> Seq<Pixel> {
    if degenerate(a, b, c) {
        Seq::empty()
    } else if flat_top_case(a, b, c) {
        let (o, l, r) = flat_top_roles(a, b, c);
        flat_top_fill(o, l, r)
    } else if flat_bottom_case(a, b, c) {
        let (o, l, r) = flat_bottom_roles(a, b, c);
        flat_bottom_fill(o, l, r)
    } else {
        let (t, m, bt) = sorted_by_row(a, b, c);
        non_flat_fill(t, m, bt)
    }
}

/// Column where the edge from `odd` to `e` crosses the given row, in the
/// reciprocal-slope form.
fn edge_column_at(odd: &ScreenVertex, e: &ScreenVertex, row: FractionalType) -> (c: FractionalType)
    requires
        odd.y@ != e.y@,
    ensures
        c@ == edge_column(odd@, e@, row@),
{
    proof {
        lemma_sub_nonzero(odd.y@, e.y@);
    }
    let recip = odd.x.sub(e.x).div(odd.y.sub(e.y));
    recip.mul(row).add(odd.x).sub(recip.mul(odd.y))
}

/// Snap a coordinate to the next half-integer pixel centre.
fn snap_coordinate(v: FractionalType) -> (r: FractionalType)
    ensures
        r@ == snap_to_center(v@),
{
    let half = FractionalType::from_fixed(32768);
    v.sub(half).ceil().add(half)
}

/// Emit one scanline row's span: pixel centres from the snapped left
/// intercept, one pixel apart, strictly before the right intercept.
#[verifier::rlimit(50)]
fn fill_span(
    col_start: FractionalType,
    guard_f: FractionalType,
    row_f: FractionalType,
    pixels: &mut Vec<Pixel>,
)
    ensures
        final(pixels)@ == old(pixels)@ + span_pixels(col_start@, guard_f@, row_f@),
{
    let mut col: i64 = col_start.to_fixed() as i64;
    let guard: i64 = guard_f.to_fixed() as i64;
    let py: i32 = row_f.to_num();
    let ghost cstart: int = col as int;
    let ghost rowv: int = row_f@;
    while col < guard
        invariant
            -0x8000_0000 <= col,
            guard as int == guard_f@,
            py as int == fx_to_int(rowv),
            rowv == row_f@,
            pixels@ + span_pixels(col as int, guard as int, rowv) == old(pixels)@ + span_pixels(
                cstart,
                guard as int,
                rowv,
            ),
        decreases guard + 65536 - col,
    {
        let px: i32 = FractionalType::from_fixed(col as i32).to_num();
        let ghost pixels_pre = pixels@;
        pixels.push(Pixel { x: px, y: py });
        proof {
            assert(Pixel { x: px, y: py } == pixel_at(col as int, rowv));
            assert(span_pixels(col as int, guard as int, rowv) == seq![
                pixel_at(col as int, rowv),
            ] + span_pixels(col as int + 65536, guard as int, rowv));
            assert(pixels_pre + span_pixels(col as int, guard as int, rowv) =~= pixels@
                + span_pixels(col as int + 65536, guard as int, rowv));
        }
        col = col + 65536;
    }
    proof {
        assert(span_pixels(col as int, guard as int, rowv) =~= Seq::<Pixel>::empty());
        assert(pixels@ + span_pixels(col as int, guard as int, rowv) =~= pixels@);
    }
}

/// Walk scanline rows from `row_start` up to, excluding, `y_end`, emitting
/// each row's span of pixel centres between the walked edges.
#[verifier::rlimit(50)]
fn fill_rows(
    odd: &ScreenVertex,
    left: &ScreenVertex,
    right: &ScreenVertex,
    row_start: FractionalType,
    y_end: FractionalType,
    pixels: &mut Vec<Pixel>,
)
    requires
        odd.y@ != left.y@,
        odd.y@ != right.y@,
    ensures
        final(pixels)@ == old(pixels)@ + rows_pixels(odd@, left@, right@, row_start@, y_end@),
{
    let ghost o = odd@;
    let ghost lv = left@;
    let ghost rv = right@;
    let mut row: i64 = row_start.to_fixed() as i64;
    let y_hi: i64 = y_end.to_fixed() as i64;
    let ghost start: int = row as int;
    while row < y_hi
        invariant
            o == odd@,
            lv == left@,
            rv == right@,
            o.1 != lv.1,
            o.1 != rv.1,
            -0x8000_0000 <= row,
            y_hi as int == y_end@,
            start == row_start@,
            pixels@ + rows_pixels(o, lv, rv, row as int, y_hi as int) == old(pixels)@
                + rows_pixels(o, lv, rv, start, y_hi as int),
        decreases y_hi + 65536 - row,
    {
        let row_f = FractionalType::from_fixed(row as i32);
        let xl = edge_column_at(odd, left, row_f);
        let snapped = snap_coordinate(xl);
        let xr = edge_column_at(odd, right, row_f);
        let ghost pixels_pre = pixels@;
        fill_span(snapped, xr, row_f, pixels);
        proof {
            assert(rows_pixels(o, lv, rv, row as int, y_hi as int) == span_pixels(
                snapped@,
                xr@,
                row as int,
            ) + rows_pixels(o, lv, rv, row as int + 65536, y_hi as int));
            assert(pixels_pre + rows_pixels(o, lv, rv, row as int, y_hi as int) =~= pixels@
                + rows_pixels(o, lv, rv, row as int + 65536, y_hi as int));
        }
        row = row + 65536;
    }
    proof {
        assert(rows_pixels(o, lv, rv, row as int, y_hi as int) =~= Seq::<Pixel>::empty());
        assert(pixels@ + rows_pixels(o, lv, rv, row as int, y_hi as int) =~= pixels@);
    }
}

/// Scanline-fill a flat-top triangle: the flat edge carries the larger row
/// value, so the walk starts at the odd vertex's snapped row and stops
/// strictly before the flat edge's row. Every chosen pixel is appended to
/// `pixels`.
pub fn rasterize_flat_top_triangle(flat_top: &FlatTriangle, pixels: &mut Vec<Pixel>)
    requires
        flat_top.v_left.y@ == flat_top.v_right.y@,
        flat_top.v_odd.y@ != flat_top.v_left.y@,
    ensures
        final(pixels)@ == old(pixels)@ + flat_top_fill(
            flat_top.v_odd@,
            flat_top.v_left@,
            flat_top.v_right@,
        ),
{
    let row_start = snap_coordinate(flat_top.v_odd.y);
    fill_rows(
        &flat_top.v_odd,
        &flat_top.v_left,
        &flat_top.v_right,
        row_start,
        flat_top.v_left.y,
        pixels,
    );
}

/// Scanline-fill a flat-bottom triangle: the flat edge carries the smaller
/// row value, so the walk starts at the flat edge's snapped row and stops
/// strictly before the odd vertex's row. Every chosen pixel is appended to
/// `pixels`.
pub fn rasterize_flat_bottom_triangle(flat_bottom: &FlatTriangle, pixels: &mut Vec<Pixel>)
    requires
        flat_bottom.v_left.y@ == flat_bottom.v_right.y@,
        flat_bottom.v_odd.y@ != flat_bottom.v_left.y@,
    ensures
        final(pixels)@ == old(pixels)@ + flat_bottom_fill(
            flat_bottom.v_odd@,
            flat_bottom.v_left@,
            flat_bottom.v_right@,
        ),
{
    let row_start = snap_coordinate(flat_bottom.v_left.y);
    fill_rows(
        &flat_bottom.v_odd,
        &flat_bottom.v_left,
        &flat_bottom.v_right,
        row_start,
        flat_bottom.v_odd.y,
        pixels,
    );
}

/// Fill a general triangle by splitting it at the mid vertex's row: the
/// long top-to-bottom edge is crossed there, and the two flat pieces are
/// filled in turn, the flat-bottom piece against the top vertex first.
pub fn rasterize_non_flat_triangle(non_flat: &NonFlatTriangle, pixels: &mut Vec<Pixel>)
    requires
        non_flat.top.y@ > non_flat.mid.y@,
        non_flat.mid.y@ > non_flat.bottom.y@,
    ensures
        final(pixels)@ == old(pixels)@ + non_flat_fill(non_flat.top@, non_flat.mid@, non_flat.bottom@),
{
    let ghost pixels_in = pixels@;
    let split_x = edge_column_at(&non_flat.top, &non_flat.bottom, non_flat.mid.y);
    let intersection = ScreenVertex { x: split_x, y: non_flat.mid.y };
    if non_flat.mid.x < split_x {
        let upper = FlatTriangle {
            v_odd: non_flat.top,
            v_left: non_flat.mid,
            v_right: intersection,
        };
        rasterize_flat_bottom_triangle(&upper, pixels);
        let lower = FlatTriangle {
            v_odd: non_flat.bottom,
            v_left: non_flat.mid,
            v_right: intersection,
        };
        rasterize_flat_top_triangle(&lower, pixels);
        proof {
            assert(pixels@ =~= pixels_in + non_flat_fill(
                non_flat.top@,
                non_flat.mid@,
                non_flat.bottom@,
            ));
        }
    } else {
        let upper = FlatTriangle {
            v_odd: non_flat.top,
            v_left: intersection,
            v_right: non_flat.mid,
        };
        rasterize_flat_bottom_triangle(&upper, pixels);
        let lower = FlatTriangle {
            v_odd: non_flat.bottom,
            v_left: intersection,
            v_right: non_flat.mid,
        };
        rasterize_flat_top_triangle(&lower, pixels);
        proof {
            assert(pixels@ =~= pixels_in + non_flat_fill(
                non_flat.top@,
                non_flat.mid@,
                non_flat.bottom@,
            ));
        }
    }
}

/// Rasterize one triangle: classify it and dispatch to the matching fill.
/// A degenerate triangle is skipped silently and draws nothing; that is
/// recovery, not an error, since meshes routinely carry degenerate faces.
pub fn rasterize(v0: &ScreenVertex, v1: &ScreenVertex, v2: &ScreenVertex, pixels: &mut Vec<Pixel>)
    ensures
        final(pixels)@ == old(pixels)@ + rasterize_model(v0@, v1@, v2@),
{
    match categorize_triangle(v0, v1, v2) {
        TriangleType::FlatTop(flat_top) => rasterize_flat_top_triangle(&flat_top, pixels),
        TriangleType::FlatBottom(flat_bottom) => rasterize_flat_bottom_triangle(
            &flat_bottom,
            pixels,
        ),
        TriangleType::NonFlat(non_flat) => rasterize_non_flat_triangle(&non_flat, pixels),
        TriangleType::NotATriangle => {
            proof {
                assert(pixels@ =~= pixels@ + rasterize_model(v0@, v1@, v2@));
            }
        },
    }
}

} // verus!
