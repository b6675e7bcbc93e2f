//! Scene traversal: drives the verified pipeline over a loaded mesh. A
//! mesh is a hierarchy of objects, groups and polygons over one flat,
//! shared array of vertex positions. Every polygon is split into a
//! triangle fan on its first vertex; each frame fills the fan triangles,
//! overlays the wireframe edges and overlays the visible vertices.

use crate::fractional_type::{fx_div, fx_to_int, FractionalType};
use crate::linalg::{mat3x4_apply_model, Mat3x4Model, Matrix3x4, Vec3Model, Vec4Model, Vector3,
    Vector4};
use crate::projection::{project_model, project_vertex, ScreenVertex};
use crate::rasterizer::{rasterize, rasterize_model, Pixel};
use vstd::prelude::*;

verus! {

/// One polygon of a mesh: an ordered list of indices into the shared
/// vertex-position array. A polygon may hold any number of indices;
/// fewer than three draw nothing.
pub struct Polygon {
    pub vertex_indices: Vec<usize>,
}

/// One group of polygons.
pub struct Group {
    pub polys: Vec<Polygon>,
}

/// One object of the scene: an ordered list of groups.
pub struct SceneObject {
    pub groups: Vec<Group>,
}

/// A loaded mesh: objects over a flat array of 3D vertex positions, all of
/// it read-only for the lifetime of a render session.
pub struct Mesh {
    pub positions: Vec<Vector3>,
    pub objects: Vec<SceneObject>,
}

/// One line segment of the wireframe overlay, in whole device coordinates.
#[derive(Clone, Copy, Debug, PartialEq, Eq, Structural)]
pub struct LineSegment {
    pub x0: i32,
    pub y0: i32,
    pub x1: i32,
    pub y1: i32,
}

/// The homogeneous world-space form of a vertex position, with unit
/// weight.
pub open spec fn homogeneous_model(p: Vec3Model) -> Vec4Model {
    Vec4Model { x: p.x, y: p.y, z: p.z, w: 65536 }
}

/// Device coordinates of the vertex at index `i`, projected through the
/// camera matrix with the perspective divide and its sentinel policy.
pub open spec fn projected_vertex(positions: Seq<Vector3>, camera: Mat3x4Model, i: int) -> (
    int,
    int,
) {
    project_model(mat3x4_apply_model(camera, homogeneous_model(positions[i]@)))
}

/// Every index of a polygon points into the position array.
pub open spec fn polygon_in_bounds(idxs: Seq<usize>, n_positions: int) -> bool {
    forall|j: int| 0 <= j < idxs.len() ==> (#[trigger] idxs[j]) < n_positions
}

/// Every polygon of a group points into the position array.
pub open spec fn group_in_bounds(g: Group, n_positions: int) -> bool {
    forall|i: int|
        0 <= i < g.polys@.len() ==> polygon_in_bounds(
            (#[trigger] g.polys@[i]).vertex_indices@,
            n_positions,
        )
}

/// Every group of an object points into the position array.
pub open spec fn object_in_bounds(o: SceneObject, n_positions: int) -> bool {
    forall|i: int|
        0 <= i < o.groups@.len() ==> group_in_bounds(#[trigger] o.groups@[i], n_positions)
}

/// Every vertex index anywhere in the mesh points into its position array.
pub open spec fn mesh_well_formed(m: Mesh) -> bool {
    forall|i: int|
        0 <= i < m.objects@.len() ==> object_in_bounds(
            #[trigger] m.objects@[i],
            m.positions@.len() as int,
        )
}

/// Pixels of the triangle fan from the `i`th polygon vertex on: each
/// triangle joins the polygon's first vertex, the previous vertex and the
/// current one.
pub open spec fn fan_pixels(
    positions: Seq<Vector3>,
    camera: Mat3x4Model,
    idxs: Seq<usize>,
    i: int,
) -> Seq<Pixel>
    decreases idxs.len() - i,
{
    if i < 2 || i >= idxs.len() {
        Seq::empty()
    } else {
        rasterize_model(
            projected_vertex(positions, camera, idxs[0] as int),
            projected_vertex(positions, camera, idxs[i - 1] as int),
            projected_vertex(positions, camera, idxs[i] as int),
        ) + fan_pixels(positions, camera, idxs, i + 1)
    }
}

/// Pixels of one polygon's fill.
pub open spec fn polygon_fill_pixels(
    positions: Seq<Vector3>,
    camera: Mat3x4Model,
    idxs: Seq<usize>,
) -> Seq<Pixel> {
    if idxs.len() < 3 {
        Seq::empty()
    } else {
        fan_pixels(positions, camera, idxs, 2)
    }
}

/// Pixels of a list of polygons from index `i` on, in order.
pub open spec fn polys_fill_pixels(
    positions: Seq<Vector3>,
    camera: Mat3x4Model,
    polys: Seq<Polygon>,
    i: int,
) -> Seq<Pixel>
    decreases polys.len() - i,
{
    if i < 0 || i >= polys.len() {
        Seq::empty()
    } else {
        polygon_fill_pixels(positions, camera, polys[i].vertex_indices@) + polys_fill_pixels(
            positions,
            camera,
            polys,
            i + 1,
        )
    }
}

/// Pixels of a list of groups from index `i` on, in order.
pub open spec fn groups_fill_pixels(
    positions: Seq<Vector3>,
    camera: Mat3x4Model,
    groups: Seq<Group>,
    i: int,
) -> Seq<Pixel>
    decreases groups.len() - i,
{
    if i < 0 || i >= groups.len() {
        Seq::empty()
    } else {
        polys_fill_pixels(positions, camera, groups[i].polys@, 0) + groups_fill_pixels(
            positions,
            camera,
            groups,
            i + 1,
        )
    }
}

/// Pixels of a list of objects from index `i` on, in order.
pub open spec fn objects_fill_pixels(
    positions: Seq<Vector3>,
    camera: Mat3x4Model,
    objects: Seq<SceneObject>,
    i: int,
) -> Seq<Pixel>
    decreases objects.len() - i,
{
    if i < 0 || i >= objects.len() {
        Seq::empty()
    } else {
        groups_fill_pixels(positions, camera, objects[i].groups@, 0) + objects_fill_pixels(
            positions,
            camera,
            objects,
            i + 1,
        )
    }
}

/// Every fill pixel of one whole frame, in traversal order.
pub open spec fn mesh_fill_pixels(m: Mesh, camera: Mat3x4Model) -> Seq<Pixel> {
    objects_fill_pixels(m.positions@, camera, m.objects@, 0)
}

/// The whole device point of a projected vertex, both coordinates floored
/// to the pixel grid.
pub open spec fn device_point(positions: Seq<Vector3>, camera: Mat3x4Model, i: int) -> (int, int) {
    let d = projected_vertex(positions, camera, i);
    (fx_to_int(d.0), fx_to_int(d.1))
}

/// The line segment between two whole device points.
pub open spec fn segment_between(a: (int, int), b: (int, int)) -> LineSegment {
    LineSegment { x0: a.0 as i32, y0: a.1 as i32, x1: b.0 as i32, y1: b.1 as i32 }
}

/// Wireframe segments of the triangle fan from the `i`th polygon vertex
/// on: two edges per fan triangle, one from the first vertex and one from
/// the previous vertex, both to the current one.
pub open spec fn fan_segments(
    positions: Seq<Vector3>,
    camera: Mat3x4Model,
    idxs: Seq<usize>,
    i: int,
) -> Seq<LineSegment>
    decreases idxs.len() - i,
{
    if i < 2 || i >= idxs.len() {
        Seq::empty()
    } else {
        seq![
            segment_between(
                device_point(positions, camera, idxs[0] as int),
                device_point(positions, camera, idxs[i] as int),
            ),
            segment_between(
                device_point(positions, camera, idxs[i - 1] as int),
                device_point(positions, camera, idxs[i] as int),
            ),
        ] + fan_segments(positions, camera, idxs, i + 1)
    }
}

/// Wireframe segments of one polygon: the opening edge from its first to
/// its second vertex, then the fan edges.
pub open spec fn polygon_wire_segments(
    positions: Seq<Vector3>,
    camera: Mat3x4Model,
    idxs: Seq<usize>,
) -> Seq<LineSegment> {
    if idxs.len() < 3 {
        Seq::empty()
    } else {
        seq![
            segment_between(
                device_point(positions, camera, idxs[0] as int),
                device_point(positions, camera, idxs[1] as int),
            ),
        ] + fan_segments(positions, camera, idxs, 2)
    }
}

/// Wireframe segments of a list of polygons from index `i` on.
pub open spec fn polys_wire_segments(
    positions: Seq<Vector3>,
    camera: Mat3x4Model,
    polys: Seq<Polygon>,
    i: int,
) -> Seq<LineSegment>
    decreases polys.len() - i,
{
    if i < 0 || i >= polys.len() {
        Seq::empty()
    } else {
        polygon_wire_segments(positions, camera, polys[i].vertex_indices@) + polys_wire_segments(
            positions,
            camera,
            polys,
            i + 1,
        )
    }
}

/// Wireframe segments of a list of groups from index `i` on.
pub open spec fn groups_wire_segments(
    positions: Seq<Vector3>,
    camera: Mat3x4Model,
    groups: Seq<Group>,
    i: int,
) -> Seq<LineSegment>
    decreases groups.len() - i,
{
    if i < 0 || i >= groups.len() {
        Seq::empty()
    } else {
        polys_wire_segments(positions, camera, groups[i].polys@, 0) + groups_wire_segments(
            positions,
            camera,
            groups,
            i + 1,
        )
    }
}

/// Wireframe segments of a list of objects from index `i` on.
pub open spec fn objects_wire_segments(
    positions: Seq<Vector3>,
    camera: Mat3x4Model,
    objects: Seq<SceneObject>,
    i: int,
) -> Seq<LineSegment>
    decreases objects.len() - i,
{
    if i < 0 || i >= objects.len() {
        Seq::empty()
    } else {
        groups_wire_segments(positions, camera, objects[i].groups@, 0) + objects_wire_segments(
            positions,
            camera,
            objects,
            i + 1,
        )
    }
}

/// Every wireframe segment of one whole frame, in traversal order.
pub open spec fn mesh_wire_segments(m: Mesh, camera: Mat3x4Model) -> Seq<LineSegment> {
    objects_wire_segments(m.positions@, camera, m.objects@, 0)
}

/// The pixels of the vertex overlay from position `i` on: every vertex
/// off the focal plane whose whole device point lands inside the
/// `width` by `height` target.
pub open spec fn vertex_overlay_pixels(
    positions: Seq<Vector3>,
    camera: Mat3x4Model,
    width: int,
    height: int,
    i: int,
) -> Seq<Pixel>
    decreases positions.len() - i,
{
    if i < 0 || i >= positions.len() {
        Seq::empty()
    } else {
        let hc = mat3x4_apply_model(camera, homogeneous_model(positions[i]@));
        let rest = vertex_overlay_pixels(positions, camera, width, height, i + 1);
        if hc.z == 0 {
            rest
        } else {
            let px = fx_to_int(fx_div(hc.x, hc.z));
            let py = fx_to_int(fx_div(hc.y, hc.z));
            if 0 <= px < width && 0 <= py < height {
                seq![Pixel { x: px as i32, y: py as i32 }] + rest
            } else {
                rest
            }
        }
    }
}

/// Project the world vertex at one index through the camera.
fn project_mesh_vertex(positions: &Vec<Vector3>, camera: &Matrix3x4, idx: usize) -> (r:
    ScreenVertex)
    requires
        idx < positions@.len(),
    ensures
        r@ == projected_vertex(positions@, camera@, idx as int),
{
    let p = positions[idx];
    let one = FractionalType::from_num(1);
    let world = Vector4 { x: p.x, y: p.y, z: p.z, w: one };
    project_vertex(camera, &world)
}

/// Fill one polygon: split it into a triangle fan on its first vertex and
/// rasterize each fan triangle in turn, appending the chosen pixels.
pub fn rasterize_polygon(
    positions: &Vec<Vector3>,
    polygon: &Polygon,
    camera: &Matrix3x4,
    pixels: &mut Vec<Pixel>,
)
    requires
        polygon_in_bounds(polygon.vertex_indices@, positions@.len() as int),
    ensures
        final(pixels)@ == old(pixels)@ + polygon_fill_pixels(
            positions@,
            camera@,
            polygon.vertex_indices@,
        ),
{
    let ghost idxs = polygon.vertex_indices@;
    let n = polygon.vertex_indices.len();
    if n < 3 {
        proof {
            assert(pixels@ =~= pixels@ + polygon_fill_pixels(positions@, camera@, idxs));
        }
        return ;
    }
    let v0 = project_mesh_vertex(positions, camera, polygon.vertex_indices[0]);
    let mut v1 = project_mesh_vertex(positions, camera, polygon.vertex_indices[1]);
    let mut i: usize = 2;
    while i < n
        invariant
            2 <= i <= n,
            n == idxs.len(),
            idxs == polygon.vertex_indices@,
            polygon_in_bounds(idxs, positions@.len() as int),
            v0@ == projected_vertex(positions@, camera@, idxs[0] as int),
            v1@ == projected_vertex(positions@, camera@, idxs[i - 1] as int),
            pixels@ + fan_pixels(positions@, camera@, idxs, i as int) == old(pixels)@
                + fan_pixels(positions@, camera@, idxs, 2),
        decreases n - i,
    {
        let v2 = project_mesh_vertex(positions, camera, polygon.vertex_indices[i]);
        let ghost pixels_pre = pixels@;
        rasterize(&v0, &v1, &v2, pixels);
        proof {
            assert(fan_pixels(positions@, camera@, idxs, i as int) == rasterize_model(
                projected_vertex(positions@, camera@, idxs[0] as int),
                projected_vertex(positions@, camera@, idxs[i - 1] as int),
                projected_vertex(positions@, camera@, idxs[i as int] as int),
            ) + fan_pixels(positions@, camera@, idxs, i + 1));
            assert(pixels_pre + fan_pixels(positions@, camera@, idxs, i as int) =~= pixels@
                + fan_pixels(positions@, camera@, idxs, i + 1));
        }
        v1 = v2;
        i = i + 1;
    }
    proof {
        assert(fan_pixels(positions@, camera@, idxs, i as int) =~= Seq::<Pixel>::empty());
        assert(pixels@ + fan_pixels(positions@, camera@, idxs, i as int) =~= pixels@);
    }
}

/// Fill every polygon of the mesh, object by object, group by group,
/// polygon by polygon, and return every chosen pixel in traversal order.
pub fn rasterize_mesh(mesh: &Mesh, camera: &Matrix3x4) -> (pixels: Vec<Pixel>)
    requires
        mesh_well_formed(*mesh),
    ensures
        pixels@ == mesh_fill_pixels(*mesh, camera@),
{
    let mut pixels: Vec<Pixel> = Vec::new();
    let mut oi: usize = 0;
    let n_objects = mesh.objects.len();
    while oi < n_objects
        invariant
            oi <= n_objects,
            n_objects == mesh.objects@.len(),
            mesh_well_formed(*mesh),
            pixels@ + objects_fill_pixels(mesh.positions@, camera@, mesh.objects@, oi as int)
                == objects_fill_pixels(mesh.positions@, camera@, mesh.objects@, 0),
        decreases n_objects - oi,
    {
        let object = &mesh.objects[oi];
        let mut gi: usize = 0;
        let n_groups = object.groups.len();
        while gi < n_groups
            invariant
                oi < n_objects,
                n_objects == mesh.objects@.len(),
                gi <= n_groups,
                n_groups == object.groups@.len(),
                object == &mesh.objects@[oi as int],
                mesh_well_formed(*mesh),
                pixels@ + groups_fill_pixels(mesh.positions@, camera@, object.groups@, gi as int)
                    + objects_fill_pixels(
                    mesh.positions@,
                    camera@,
                    mesh.objects@,
                    oi as int + 1,
                ) == objects_fill_pixels(mesh.positions@, camera@, mesh.objects@, 0),
            decreases n_groups - gi,
        {
            let group = &object.groups[gi];
            let mut pi: usize = 0;
            let n_polys = group.polys.len();
            while pi < n_polys
                invariant
                    oi < n_objects,
                    n_objects == mesh.objects@.len(),
                    gi < n_groups,
                    n_groups == object.groups@.len(),
                    object == &mesh.objects@[oi as int],
                    pi <= n_polys,
                    n_polys == group.polys@.len(),
                    group == &object.groups@[gi as int],
                    mesh_well_formed(*mesh),
                    pixels@ + polys_fill_pixels(mesh.positions@, camera@, group.polys@, pi as int)
                        + groups_fill_pixels(
                        mesh.positions@,
                        camera@,
                        object.groups@,
                        gi as int + 1,
                    ) + objects_fill_pixels(
                        mesh.positions@,
                        camera@,
                        mesh.objects@,
                        oi as int + 1,
                    ) == objects_fill_pixels(mesh.positions@, camera@, mesh.objects@, 0),
                decreases n_polys - pi,
            {
                let ghost pixels_pre = pixels@;
                rasterize_polygon(&mesh.positions, &group.polys[pi], camera, &mut pixels);
                proof {
                    assert(polys_fill_pixels(
                        mesh.positions@,
                        camera@,
                        group.polys@,
                        pi as int,
                    ) == polygon_fill_pixels(
                        mesh.positions@,
                        camera@,
                        group.polys@[pi as int].vertex_indices@,
                    ) + polys_fill_pixels(mesh.positions@, camera@, group.polys@, pi as int + 1));
                    assert(pixels_pre + polys_fill_pixels(
                        mesh.positions@,
                        camera@,
                        group.polys@,
                        pi as int,
                    ) =~= pixels@ + polys_fill_pixels(
                        mesh.positions@,
                        camera@,
                        group.polys@,
                        pi as int + 1,
                    ));
                }
                pi = pi + 1;
            }
            proof {
                assert(polys_fill_pixels(mesh.positions@, camera@, group.polys@, pi as int)
                    =~= Seq::<Pixel>::empty());
                assert(groups_fill_pixels(mesh.positions@, camera@, object.groups@, gi as int)
                    == polys_fill_pixels(mesh.positions@, camera@, group.polys@, 0)
                    + groups_fill_pixels(mesh.positions@, camera@, object.groups@, gi as int + 1));
                assert(pixels@ + polys_fill_pixels(mesh.positions@, camera@, group.polys@, pi as int)
                    =~= pixels@);
            }
            gi = gi + 1;
        }
        proof {
            assert(groups_fill_pixels(mesh.positions@, camera@, object.groups@, gi as int)
                =~= Seq::<Pixel>::empty());
            assert(objects_fill_pixels(mesh.positions@, camera@, mesh.objects@, oi as int)
                == groups_fill_pixels(mesh.positions@, camera@, object.groups@, 0)
                + objects_fill_pixels(mesh.positions@, camera@, mesh.objects@, oi as int + 1));
            assert(pixels@ + groups_fill_pixels(mesh.positions@, camera@, object.groups@, gi as int)
                =~= pixels@);
        }
        oi = oi + 1;
    }
    proof {
        assert(objects_fill_pixels(mesh.positions@, camera@, mesh.objects@, oi as int)
            =~= Seq::<Pixel>::empty());
        assert(pixels@ + objects_fill_pixels(mesh.positions@, camera@, mesh.objects@, oi as int)
            =~= pixels@);
    }
    pixels
}

/// Trace one polygon's wireframe: the opening edge, then two fan edges per
/// triangle, appending each segment in whole device coordinates.
#[verifier::rlimit(100)]
pub fn wireframe_polygon(
    positions: &Vec<Vector3>,
    polygon: &Polygon,
    camera: &Matrix3x4,
    segments: &mut Vec<LineSegment>,
)
    requires
        polygon_in_bounds(polygon.vertex_indices@, positions@.len() as int),
    ensures
        final(segments)@ == old(segments)@ + polygon_wire_segments(
            positions@,
            camera@,
            polygon.vertex_indices@,
        ),
{
    let ghost idxs = polygon.vertex_indices@;
    let n = polygon.vertex_indices.len();
    if n < 3 {
        proof {
            assert(segments@ =~= segments@ + polygon_wire_segments(positions@, camera@, idxs));
        }
        return ;
    }
    let v0 = project_mesh_vertex(positions, camera, polygon.vertex_indices[0]);
    let p0x: i32 = v0.x.to_num();
    let p0y: i32 = v0.y.to_num();
    let mut v1 = project_mesh_vertex(positions, camera, polygon.vertex_indices[1]);
    let mut p1x: i32 = v1.x.to_num();
    let mut p1y: i32 = v1.y.to_num();
    let ghost segments_in = segments@;
    segments.push(LineSegment { x0: p0x, y0: p0y, x1: p1x, y1: p1y });
    proof {
        assert(segments@ =~= segments_in + seq![
            segment_between(
                device_point(positions@, camera@, idxs[0] as int),
                device_point(positions@, camera@, idxs[1] as int),
            ),
        ]);
    }
    let mut i: usize = 2;
    while i < n
        invariant
            2 <= i <= n,
            n == idxs.len(),
            idxs == polygon.vertex_indices@,
            polygon_in_bounds(idxs, positions@.len() as int),
            v0@ == projected_vertex(positions@, camera@, idxs[0] as int),
            p0x as int == fx_to_int(v0@.0),
            p0y as int == fx_to_int(v0@.1),
            v1@ == projected_vertex(positions@, camera@, idxs[i - 1] as int),
            p1x as int == fx_to_int(v1@.0),
            p1y as int == fx_to_int(v1@.1),
            segments@ + fan_segments(positions@, camera@, idxs, i as int) == old(segments)@
                + polygon_wire_segments(positions@, camera@, idxs),
        decreases n - i,
    {
        let v2 = project_mesh_vertex(positions, camera, polygon.vertex_indices[i]);
        let p2x: i32 = v2.x.to_num();
        let p2y: i32 = v2.y.to_num();
        let ghost segments_pre = segments@;
        segments.push(LineSegment { x0: p0x, y0: p0y, x1: p2x, y1: p2y });
        segments.push(LineSegment { x0: p1x, y0: p1y, x1: p2x, y1: p2y });
        proof {
            assert(fan_segments(positions@, camera@, idxs, i as int) == seq![
                segment_between(
                    device_point(positions@, camera@, idxs[0] as int),
                    device_point(positions@, camera@, idxs[i as int] as int),
                ),
                segment_between(
                    device_point(positions@, camera@, idxs[i - 1] as int),
                    device_point(positions@, camera@, idxs[i as int] as int),
                ),
            ] + fan_segments(positions@, camera@, idxs, i + 1));
            assert(segments_pre + fan_segments(positions@, camera@, idxs, i as int) =~= segments@
                + fan_segments(positions@, camera@, idxs, i + 1));
        }
        v1 = v2;
        p1x = p2x;
        p1y = p2y;
        i = i + 1;
    }
    proof {
        assert(fan_segments(positions@, camera@, idxs, i as int) =~= Seq::<LineSegment>::empty());
        assert(segments@ + fan_segments(positions@, camera@, idxs, i as int) =~= segments@);
    }
}

/// Trace the wireframe of the whole mesh, in traversal order.
pub fn wireframe_mesh(mesh: &Mesh, camera: &Matrix3x4) -> (segments: Vec<LineSegment>)
    requires
        mesh_well_formed(*mesh),
    ensures
        segments@ == mesh_wire_segments(*mesh, camera@),
{
    let mut segments: Vec<LineSegment> = Vec::new();
    let mut oi: usize = 0;
    let n_objects = mesh.objects.len();
    while oi < n_objects
        invariant
            oi <= n_objects,
            n_objects == mesh.objects@.len(),
            mesh_well_formed(*mesh),
            segments@ + objects_wire_segments(mesh.positions@, camera@, mesh.objects@, oi as int)
                == objects_wire_segments(mesh.positions@, camera@, mesh.objects@, 0),
        decreases n_objects - oi,
    {
        let object = &mesh.objects[oi];
        let mut gi: usize = 0;
        let n_groups = object.groups.len();
        while gi < n_groups
            invariant
                oi < n_objects,
                n_objects == mesh.objects@.len(),
                gi <= n_groups,
                n_groups == object.groups@.len(),
                object == &mesh.objects@[oi as int],
                mesh_well_formed(*mesh),
                segments@ + groups_wire_segments(
                    mesh.positions@,
                    camera@,
                    object.groups@,
                    gi as int,
                ) + objects_wire_segments(
                    mesh.positions@,
                    camera@,
                    mesh.objects@,
                    oi as int + 1,
                ) == objects_wire_segments(mesh.positions@, camera@, mesh.objects@, 0),
            decreases n_groups - gi,
        {
            let group = &object.groups[gi];
            let mut pi: usize = 0;
            let n_polys = group.polys.len();
            while pi < n_polys
                invariant
                    oi < n_objects,
                    n_objects == mesh.objects@.len(),
                    gi < n_groups,
                    n_groups == object.groups@.len(),
                    object == &mesh.objects@[oi as int],
                    pi <= n_polys,
                    n_polys == group.polys@.len(),
                    group == &object.groups@[gi as int],
                    mesh_well_formed(*mesh),
                    segments@ + polys_wire_segments(
                        mesh.positions@,
                        camera@,
                        group.polys@,
                        pi as int,
                    ) + groups_wire_segments(
                        mesh.positions@,
                        camera@,
                        object.groups@,
                        gi as int + 1,
                    ) + objects_wire_segments(
                        mesh.positions@,
                        camera@,
                        mesh.objects@,
                        oi as int + 1,
                    ) == objects_wire_segments(mesh.positions@, camera@, mesh.objects@, 0),
                decreases n_polys - pi,
            {
                let ghost segments_pre = segments@;
                wireframe_polygon(&mesh.positions, &group.polys[pi], camera, &mut segments);
                proof {
                    assert(polys_wire_segments(
                        mesh.positions@,
                        camera@,
                        group.polys@,
                        pi as int,
                    ) == polygon_wire_segments(
                        mesh.positions@,
                        camera@,
                        group.polys@[pi as int].vertex_indices@,
                    ) + polys_wire_segments(mesh.positions@, camera@, group.polys@, pi as int + 1));
                    assert(segments_pre + polys_wire_segments(
                        mesh.positions@,
                        camera@,
                        group.polys@,
                        pi as int,
                    ) =~= segments@ + polys_wire_segments(
                        mesh.positions@,
                        camera@,
                        group.polys@,
                        pi as int + 1,
                    ));
                }
                pi = pi + 1;
            }
            proof {
                assert(polys_wire_segments(mesh.positions@, camera@, group.polys@, pi as int)
                    =~= Seq::<LineSegment>::empty());
                assert(groups_wire_segments(mesh.positions@, camera@, object.groups@, gi as int)
                    == polys_wire_segments(mesh.positions@, camera@, group.polys@, 0)
                    + groups_wire_segments(
                    mesh.positions@,
                    camera@,
                    object.groups@,
                    gi as int + 1,
                ));
                assert(segments@ + polys_wire_segments(
                    mesh.positions@,
                    camera@,
                    group.polys@,
                    pi as int,
                ) =~= segments@);
            }
            gi = gi + 1;
        }
        proof {
            assert(groups_wire_segments(mesh.positions@, camera@, object.groups@, gi as int)
                =~= Seq::<LineSegment>::empty());
            assert(objects_wire_segments(mesh.positions@, camera@, mesh.objects@, oi as int)
                == groups_wire_segments(mesh.positions@, camera@, object.groups@, 0)
                + objects_wire_segments(mesh.positions@, camera@, mesh.objects@, oi as int + 1));
            assert(segments@ + groups_wire_segments(
                mesh.positions@,
                camera@,
                object.groups@,
                gi as int,
            ) =~= segments@);
        }
        oi = oi + 1;
    }
    proof {
        assert(objects_wire_segments(mesh.positions@, camera@, mesh.objects@, oi as int)
            =~= Seq::<LineSegment>::empty());
        assert(segments@ + objects_wire_segments(mesh.positions@, camera@, mesh.objects@, oi as int)
            =~= segments@);
    }
    segments
}

/// Overlay the mesh's vertices: every vertex off the focal plane whose
/// whole device point lands inside the `width` by `height` target yields
/// one pixel, in position order.
pub fn vertex_overlay(
    positions: &Vec<Vector3>,
    camera: &Matrix3x4,
    width: i32,
    height: i32,
) -> (pixels: Vec<Pixel>)
    ensures
        pixels@ == vertex_overlay_pixels(positions@, camera@, width as int, height as int, 0),
{
    let mut pixels: Vec<Pixel> = Vec::new();
    let one = FractionalType::from_num(1);
    let mut i: usize = 0;
    let n = positions.len();
    while i < n
        invariant
            i <= n,
            n == positions@.len(),
            one@ == 65536,
            pixels@ + vertex_overlay_pixels(
                positions@,
                camera@,
                width as int,
                height as int,
                i as int,
            ) == vertex_overlay_pixels(positions@, camera@, width as int, height as int, 0),
        decreases n - i,
    {
        let p = positions[i];
        let world = Vector4 { x: p.x, y: p.y, z: p.z, w: one };
        let hc = camera.apply(&world);
        let ghost pixels_pre = pixels@;
        if !hc.z.is_zero() {
            let px: i32 = hc.x.div(hc.z).to_num();
            let py: i32 = hc.y.div(hc.z).to_num();
            if px >= 0 && px < width && py >= 0 && py < height {
                pixels.push(Pixel { x: px, y: py });
                proof {
                    assert(pixels@ =~= pixels_pre + seq![Pixel { x: px, y: py }]);
                }
            }
        }
        proof {
            assert(pixels_pre + vertex_overlay_pixels(
                positions@,
                camera@,
                width as int,
                height as int,
                i as int,
            ) =~= pixels@ + vertex_overlay_pixels(
                positions@,
                camera@,
                width as int,
                height as int,
                i as int + 1,
            ));
        }
        i = i + 1;
    }
    proof {
        assert(vertex_overlay_pixels(positions@, camera@, width as int, height as int, i as int)
            =~= Seq::<Pixel>::empty());
        assert(pixels@ + vertex_overlay_pixels(
            positions@,
            camera@,
            width as int,
            height as int,
            i as int,
        ) =~= pixels@);
    }
    pixels
}

} // verus!
