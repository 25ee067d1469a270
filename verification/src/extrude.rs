//! Extrusion of a flat mesh into a solid.
//!
//! The solid has a front cap at half the depth, a back cap at minus half the
//! depth with its triangles turned over, and one wall panel along every edge
//! of the outline that is long enough to have a direction.

use vstd::prelude::*;
pub use crate::smooth::compute_smooth_normals;
use crate::error::FontMeshError;
use crate::triangulate::{triangulate, triangulation};
use crate::types::{triangles_within, Contour, ContourPoint, Mesh2D, Mesh3D, Outline2D};
use crate::vecmath::{
    above, above2, below, below2, diff2, div3, length_squared, length_squared2, midpoint3, mul2,
    neg3, negate3, number, perp2, prod2, quot3, raise, raised, real_of, recip2, splat, splat3,
    sqrt2, sub2, unit_or_zero3, Point2D, Point3D, Real,
};

verus! {

/// One wall panel: the two ends of an outline edge, and the normal at each.
#[derive(Debug, Clone, Copy)]
pub struct WallQuad {
    pub p0: Point2D,
    pub p1: Point2D,
    pub normal_p0: Point3D,
    pub normal_p1: Point3D,
}

/// The squared length below which an edge has no direction: one over ten
/// to the tenth.
pub open spec fn edge_tolerance() -> Real {
    recip2(real_of(10_000_000_000))
}

/// The squared length of the edge from `a` to `b`.
pub open spec fn edge_length_squared(a: Point2D, b: Point2D) -> Real {
    length_squared2(diff2(b, a))
}

/// The outward normal of the edge from `a` to `b`: its direction, turned a
/// quarter turn, lying in the plane of the outline.
pub open spec fn edge_normal(a: Point2D, b: Point2D) -> Point3D {
    let d = diff2(b, a);
    raised(perp2(prod2(d, recip2(sqrt2(length_squared2(d))))), splat3(0))
}

/// The normal where two edges meet: their average, at unit length.
pub open spec fn blended(first: Point3D, second: Point3D) -> Point3D {
    unit_or_zero3(midpoint3(first, second))
}

/// The point after point `i` in a contour of `n` points.
pub open spec fn next_point(n: int, closed: bool, i: int) -> int {
    if closed {
        (i + 1) % n
    } else {
        i + 1
    }
}

/// The point before point `i` of a closed contour of `n` points, or of an
/// open one when `i` is not its first.
pub open spec fn prev_point(n: int, i: int) -> int {
    if i == 0 {
        n - 1
    } else {
        i - 1
    }
}

/// Whether edge `i` of the contour is too short to carry a wall.
pub open spec fn edge_skipped(points: Seq<ContourPoint>, closed: bool, i: int) -> bool {
    let next = next_point(points.len() as int, closed, i);
    below2(edge_length_squared(points[i].point, points[next].point), edge_tolerance())
}

/// The normal at the start of edge `i`: blended with the edge before where
/// there is one of more than the tolerance, else the edge's own.
pub open spec fn start_normal(points: Seq<ContourPoint>, closed: bool, i: int) -> Point3D {
    let n = points.len() as int;
    let p0 = points[i].point;
    let own = edge_normal(p0, points[next_point(n, closed, i)].point);
    if closed || i > 0 {
        let before = points[prev_point(n, i)].point;
        if above2(edge_length_squared(before, p0), edge_tolerance()) {
            blended(edge_normal(before, p0), own)
        } else {
            own
        }
    } else {
        own
    }
}

/// The normal at the end of edge `i`: blended with the edge after where
/// there is one of more than the tolerance, else the edge's own.
pub open spec fn end_normal(points: Seq<ContourPoint>, closed: bool, i: int) -> Point3D {
    let n = points.len() as int;
    let next = next_point(n, closed, i);
    let p1 = points[next].point;
    let own = edge_normal(points[i].point, p1);
    if closed || next < n - 1 {
        let after = points[next_point(n, closed, next)].point;
        if above2(edge_length_squared(p1, after), edge_tolerance()) {
            blended(own, edge_normal(p1, after))
        } else {
            own
        }
    } else {
        own
    }
}

/// The wall panel along edge `i` of the contour.
pub open spec fn panel(points: Seq<ContourPoint>, closed: bool, i: int) -> WallQuad {
    WallQuad {
        p0: points[i].point,
        p1: points[next_point(points.len() as int, closed, i)].point,
        normal_p0: start_normal(points, closed, i),
        normal_p1: end_normal(points, closed, i),
    }
}

/// The panels along the first `upto` edges of a contour, in order, the
/// skipped edges left out.
pub open spec fn panels_upto(points: Seq<ContourPoint>, closed: bool, upto: nat) -> Seq<WallQuad>
    decreases upto,
{
    if upto == 0 {
        Seq::empty()
    } else {
        let before = panels_upto(points, closed, (upto - 1) as nat);
        if edge_skipped(points, closed, upto - 1) {
            before
        } else {
            before.push(panel(points, closed, upto - 1))
        }
    }
}

/// The panels along all edges of a contour.
pub open spec fn contour_panels(contour: Contour) -> Seq<WallQuad> {
    panels_upto(contour.points@, contour.closed, contour.edge_count())
}

/// The panels of the first `upto` contours, in order.
pub open spec fn outline_panels(contours: Seq<Contour>, upto: nat) -> Seq<WallQuad>
    decreases upto,
{
    if upto == 0 {
        Seq::empty()
    } else {
        outline_panels(contours, (upto - 1) as nat) + contour_panels(contours[upto - 1])
    }
}

/// The number of edges of the first `upto` contours.
pub open spec fn outline_edges(contours: Seq<Contour>, upto: nat) -> nat
    decreases upto,
{
    if upto == 0 {
        0
    } else {
        outline_edges(contours, (upto - 1) as nat) + contours[upto - 1].edge_count()
    }
}

/// Half the depth, in the third lane: the height of the front cap.
pub open spec fn front_level(depth: Point3D) -> Point3D {
    quot3(depth, splat3(2))
}

/// Minus half the depth, in the third lane: the height of the back cap.
pub open spec fn back_level(depth: Point3D) -> Point3D {
    neg3(front_level(depth))
}

/// The normal of the front cap: `(0, 0, 1)`.
pub open spec fn front_normal() -> Point3D {
    raised(real_of(0), splat3(1))
}

/// The normal of the back cap: `(0, 0, -1)`.
pub open spec fn back_normal() -> Point3D {
    raised(real_of(0), neg3(splat3(1)))
}

/// The flat vertices, each raised to `level`.
pub open spec fn cap_vertices(flat: Seq<Point2D>, level: Point3D) -> Seq<Point3D> {
    Seq::new(flat.len(), |i: int| raised(flat[i], level))
}

/// `count` copies of one normal.
pub open spec fn cap_normals(count: nat, normal: Point3D) -> Seq<Point3D> {
    Seq::new(count, |i: int| normal)
}

/// Four vertices per panel: its start and end on the front, then its end
/// and start on the back.
pub open spec fn wall_vertices(panels: Seq<WallQuad>, front: Point3D, back: Point3D) -> Seq<
    Point3D,
> {
    Seq::new(
        4 * panels.len(),
        |i: int|
            {
                let q = panels[i / 4];
                if i % 4 == 0 {
                    raised(q.p0, front)
                } else if i % 4 == 1 {
                    raised(q.p1, front)
                } else if i % 4 == 2 {
                    raised(q.p1, back)
                } else {
                    raised(q.p0, back)
                }
            },
    )
}

/// Four normals per panel, matching `wall_vertices`.
pub open spec fn wall_normals(panels: Seq<WallQuad>) -> Seq<Point3D> {
    Seq::new(
        4 * panels.len(),
        |i: int|
            {
                let q = panels[i / 4];
                if i % 4 == 0 || i % 4 == 3 {
                    q.normal_p0
                } else {
                    q.normal_p1
                }
            },
    )
}

/// The whole triangles of `indices`, each moved up by `offset` and with
/// its last two corners exchanged.
pub open spec fn flipped_triangles(indices: Seq<u32>, offset: int) -> Seq<u32> {
    Seq::new(
        (3 * (indices.len() / 3)) as nat,
        |j: int|
            {
                let t = j / 3;
                let source = if j % 3 == 0 {
                    3 * t
                } else if j % 3 == 1 {
                    3 * t + 2
                } else {
                    3 * t + 1
                };
                (offset + indices[source]) as u32
            },
    )
}

/// Two triangles per panel over its four vertices, the first panel's
/// vertices starting at `first`: corners 0, 1, 2 and 0, 2, 3.
pub open spec fn wall_indices(first: int, panel_count: nat) -> Seq<u32> {
    Seq::new(
        6 * panel_count,
        |j: int|
            {
                let corner: int = if j % 6 == 0 || j % 6 == 3 {
                    0
                } else if j % 6 == 1 {
                    1
                } else if j % 6 == 5 {
                    3
                } else {
                    2
                };
                (first + 4 * (j / 6) + corner) as u32
            },
    )
}

/// The vertices of the solid: front cap, back cap, walls.
pub open spec fn solid_vertices(flat: Seq<Point2D>, panels: Seq<WallQuad>, depth: Point3D) -> Seq<
    Point3D,
> {
    cap_vertices(flat, front_level(depth)) + cap_vertices(flat, back_level(depth)) + wall_vertices(
        panels,
        front_level(depth),
        back_level(depth),
    )
}

/// The normals of the solid, one per vertex of `solid_vertices`.
pub open spec fn solid_normals(flat_count: nat, panels: Seq<WallQuad>) -> Seq<Point3D> {
    cap_normals(flat_count, front_normal()) + cap_normals(flat_count, back_normal())
        + wall_normals(panels)
}

/// The triangles of the solid: the flat mesh's own for the front, the same
/// turned over for the back, two per panel for the walls.
pub open spec fn solid_indices(indices: Seq<u32>, flat_count: nat, panel_count: nat) -> Seq<u32> {
    indices + flipped_triangles(indices, flat_count as int) + wall_indices(
        2 * flat_count as int,
        panel_count,
    )
}

/// Whether every vertex of the solid over `flat_count` flat vertices can
/// be numbered in 32 bits: two per flat vertex and four per outline edge,
/// and each back-cap index as well.
pub open spec fn solid_fits(flat_count: nat, indices: Seq<u32>, outline: Outline2D) -> bool {
    &&& 2 * flat_count + 4 * outline_edges(outline.contours@, outline.contours@.len()) <= u32::MAX
    &&& forall|j: int|
        0 <= j < 3 * (indices.len() / 3) ==> flat_count + (#[trigger] indices[j]) <= u32::MAX
}

/// What is wrong where the solid does not fit: too many vertices, or else
/// a back-cap index that is too large.
pub open spec fn misfit(flat_count: nat, outline: Outline2D) -> Seq<char> {
    if 2 * flat_count + 4 * outline_edges(outline.contours@, outline.contours@.len()) <= u32::MAX {
        "vertex index too large"@
    } else {
        "too many vertices"@
    }
}

/// Whether the solid over this mesh and outline can be numbered in 32 bits.
pub open spec fn extrusion_fits(mesh: Mesh2D, outline: Outline2D) -> bool {
    solid_fits(mesh.vertices@.len(), mesh.indices@, outline)
}

/// The panels of all contours of an outline.
pub open spec fn all_panels(outline: Outline2D) -> Seq<WallQuad> {
    outline_panels(outline.contours@, outline.contours@.len())
}

/// Appending a panel appends its four vertices, four normals and six indices.
proof fn lemma_push_panel(panels: Seq<WallQuad>, q: WallQuad, front: Point3D, back: Point3D, first: int)
    requires
        0 <= first,
        first + 4 * (panels.len() + 1) <= u32::MAX,
    ensures
        wall_vertices(panels.push(q), front, back) == wall_vertices(panels, front, back) + seq![
            raised(q.p0, front),
            raised(q.p1, front),
            raised(q.p1, back),
            raised(q.p0, back),
        ],
        wall_normals(panels.push(q)) == wall_normals(panels) + seq![
            q.normal_p0,
            q.normal_p1,
            q.normal_p1,
            q.normal_p0,
        ],
        wall_indices(first, panels.len() + 1) == wall_indices(first, panels.len()) + seq![
            (first + 4 * panels.len()) as u32,
            (first + 4 * panels.len() + 1) as u32,
            (first + 4 * panels.len() + 2) as u32,
            (first + 4 * panels.len()) as u32,
            (first + 4 * panels.len() + 2) as u32,
            (first + 4 * panels.len() + 3) as u32,
        ],
{
    let k = panels.len() as int;
    let more = panels.push(q);
    let v0 = wall_vertices(more, front, back);
    let v1 = wall_vertices(panels, front, back) + seq![
        raised(q.p0, front),
        raised(q.p1, front),
        raised(q.p1, back),
        raised(q.p0, back),
    ];
    assert(v0.len() == v1.len());
    assert forall|i: int| 0 <= i < v0.len() implies v0[i] == v1[i] by {
        if i < 4 * k {
            assert(i / 4 < k);
            assert(more[i / 4] == panels[i / 4]);
        } else {
            assert(i / 4 == k);
            assert(i % 4 == i - 4 * k);
        }
    }
    assert(v0 =~= v1);
    let n0 = wall_normals(more);
    let n1 = wall_normals(panels) + seq![q.normal_p0, q.normal_p1, q.normal_p1, q.normal_p0];
    assert forall|i: int| 0 <= i < n0.len() implies n0[i] == n1[i] by {
        if i < 4 * k {
            assert(i / 4 < k);
            assert(more[i / 4] == panels[i / 4]);
        } else {
            assert(i / 4 == k);
            assert(i % 4 == i - 4 * k);
        }
    }
    assert(n0 =~= n1);
    let i0 = wall_indices(first, (k + 1) as nat);
    let i1 = wall_indices(first, k as nat) + seq![
        (first + 4 * k) as u32,
        (first + 4 * k + 1) as u32,
        (first + 4 * k + 2) as u32,
        (first + 4 * k) as u32,
        (first + 4 * k + 2) as u32,
        (first + 4 * k + 3) as u32,
    ];
    assert forall|j: int| 0 <= j < i0.len() implies i0[j] == i1[j] by {
        if j >= 6 * k {
            assert(j / 6 == k);
            assert(j % 6 == j - 6 * k);
        }
    }
    assert(i0 =~= i1);
}

/// The edges of the first contours are among the edges of all.
proof fn lemma_outline_edges_grow(contours: Seq<Contour>, some: nat, all: nat)
    requires
        some <= all,
    ensures
        outline_edges(contours, some) <= outline_edges(contours, all),
    decreases all,
{
    if some < all {
        lemma_outline_edges_grow(contours, some, (all - 1) as nat);
    }
}

/// A contour has at most one panel per edge.
proof fn lemma_panels_len(points: Seq<ContourPoint>, closed: bool, upto: nat)
    ensures
        panels_upto(points, closed, upto).len() <= upto,
    decreases upto,
{
    if upto > 0 {
        lemma_panels_len(points, closed, (upto - 1) as nat);
    }
}

/// An outline has at most one panel per edge.
pub proof fn lemma_outline_panels_len(contours: Seq<Contour>, upto: nat)
    ensures
        outline_panels(contours, upto).len() <= outline_edges(contours, upto),
    decreases upto,
{
    if upto > 0 {
        lemma_outline_panels_len(contours, (upto - 1) as nat);
        let c = contours[upto - 1];
        lemma_panels_len(c.points@, c.closed, c.edge_count());
    }
}

/// The squared length below which an edge is taken to have no direction.
pub fn edge_tolerance_value() -> (r: Real)
    ensures
        r == edge_tolerance(),
{
    number(10_000_000_000).recip()
}

/// The outward normal of the edge from `a` to `b`.
pub fn wall_normal(a: Point2D, b: Point2D) -> (r: Point3D)
    ensures
        r == edge_normal(a, b),
{
    let d = sub2(b, a);
    let direction = mul2(d, length_squared(d).sqrt().recip());
    raise(direction.perp(), splat(0))
}

/// The wall panel along edge `i` of the contour, or `None` where the edge
/// is shorter than the tolerance.
pub fn wall_panel(contour: &Contour, i: usize) -> (r: Option<WallQuad>)
    requires
        i < contour.edge_count(),
    ensures
        r == (if edge_skipped(contour.points@, contour.closed, i as int) {
            None
        } else {
            Some(panel(contour.points@, contour.closed, i as int))
        }),
{
    let n = contour.points.len();
    let tolerance = edge_tolerance_value();
    let next = if contour.closed {
        (i + 1) % n
    } else {
        i + 1
    };
    let p0 = contour.points[i].point;
    let p1 = contour.points[next].point;
    if below(length_squared(sub2(p1, p0)), tolerance) {
        return None;
    }
    let own = wall_normal(p0, p1);
    let normal_p0 = if contour.closed || i > 0 {
        let before = if i == 0 {
            contour.points[n - 1].point
        } else {
            contour.points[i - 1].point
        };
        if above(length_squared(sub2(p0, before)), tolerance) {
            wall_normal(before, p0).midpoint(own).normalize_or_zero()
        } else {
            own
        }
    } else {
        own
    };
    let normal_p1 = if contour.closed || next < n - 1 {
        let next_next = if contour.closed {
            (next + 1) % n
        } else {
            next + 1
        };
        let after = contour.points[next_next].point;
        if above(length_squared(sub2(after, p1)), tolerance) {
            own.midpoint(wall_normal(p1, after)).normalize_or_zero()
        } else {
            own
        }
    } else {
        own
    };
    Some(WallQuad { p0, p1, normal_p0, normal_p1 })
}

/// Appends the walls of the solid to `mesh_3d`: for every edge of every
/// contour that is not skipped, four vertices at plus and minus
/// `half_depth` and two triangles over them.
pub fn create_side_faces(mesh_3d: &mut Mesh3D, outline: &Outline2D, half_depth: Point3D)
    requires
        old(mesh_3d).normals@.len() == old(mesh_3d).vertices@.len(),
        old(mesh_3d).vertices@.len() + 4 * outline_edges(
            outline.contours@,
            outline.contours@.len(),
        ) <= u32::MAX,
    ensures
        final(mesh_3d).vertices@ == old(mesh_3d).vertices@ + wall_vertices(
            all_panels(*outline),
            half_depth,
            neg3(half_depth),
        ),
        final(mesh_3d).normals@ == old(mesh_3d).normals@ + wall_normals(
            all_panels(*outline),
        ),
        final(mesh_3d).indices@ == old(mesh_3d).indices@ + wall_indices(
            old(mesh_3d).vertices@.len() as int,
            all_panels(*outline).len(),
        ),
{
    let back = negate3(half_depth);
    let ghost first = mesh_3d.vertices@.len() as int;
    let ghost done: Seq<WallQuad> = Seq::empty();
    let mut c: usize = 0;
    assert(wall_vertices(done, half_depth, back) =~= Seq::<Point3D>::empty());
    assert(wall_normals(done) =~= Seq::<Point3D>::empty());
    assert(wall_indices(first, 0) =~= Seq::<u32>::empty());
    assert(mesh_3d.vertices@ + Seq::<Point3D>::empty() =~= mesh_3d.vertices@);
    assert(mesh_3d.normals@ + Seq::<Point3D>::empty() =~= mesh_3d.normals@);
    assert(mesh_3d.indices@ + Seq::<u32>::empty() =~= mesh_3d.indices@);
    while c < outline.contours.len()
        invariant
            c <= outline.contours@.len(),
            back == neg3(half_depth),
            first == old(mesh_3d).vertices@.len(),
            first + 4 * outline_edges(outline.contours@, outline.contours@.len()) <= u32::MAX,
            done == outline_panels(outline.contours@, c as nat),
            done.len() <= outline_edges(outline.contours@, c as nat),
            mesh_3d.vertices@ == old(mesh_3d).vertices@ + wall_vertices(done, half_depth, back),
            mesh_3d.normals@ == old(mesh_3d).normals@ + wall_normals(done),
            mesh_3d.indices@ == old(mesh_3d).indices@ + wall_indices(first, done.len()),
        decreases outline.contours@.len() - c,
    {
        let contour = &outline.contours[c];
        let n = contour.points.len();
        let edges = if n < 2 {
            0
        } else if contour.closed {
            n
        } else {
            n - 1
        };
        let ghost before = done;
        let mut i: usize = 0;
        proof {
            lemma_outline_edges_grow(
                outline.contours@,
                (c + 1) as nat,
                outline.contours@.len(),
            );
            assert(before + panels_upto(contour.points@, contour.closed, 0) =~= before);
        }
        while i < edges
            invariant
                i <= edges,
                edges == contour.edge_count(),
                c < outline.contours@.len(),
                *contour == outline.contours@[c as int],
                back == neg3(half_depth),
                first == old(mesh_3d).vertices@.len(),
                first + 4 * outline_edges(outline.contours@, (c + 1) as nat) <= u32::MAX,
                before == outline_panels(outline.contours@, c as nat),
                before.len() <= outline_edges(outline.contours@, c as nat),
                done == before + panels_upto(contour.points@, contour.closed, i as nat),
                done.len() <= before.len() + i,
                mesh_3d.vertices@ == old(mesh_3d).vertices@ + wall_vertices(
                    done,
                    half_depth,
                    back,
                ),
                mesh_3d.normals@ == old(mesh_3d).normals@ + wall_normals(done),
                mesh_3d.indices@ == old(mesh_3d).indices@ + wall_indices(first, done.len()),
            decreases edges - i,
        {
            let ghost so_far = panels_upto(contour.points@, contour.closed, i as nat);
            match wall_panel(contour, i) {
                None => {},
                Some(q) => {
                    proof {
                        lemma_push_panel(done, q, half_depth, back, first);
                        assert(before + so_far.push(q) =~= (before + so_far).push(q));
                    }
                    let base_idx = mesh_3d.vertices.len() as u32;
                    mesh_3d.vertices.push(raise(q.p0, half_depth));
                    mesh_3d.normals.push(q.normal_p0);
                    mesh_3d.vertices.push(raise(q.p1, half_depth));
                    mesh_3d.normals.push(q.normal_p1);
                    mesh_3d.vertices.push(raise(q.p1, back));
                    mesh_3d.normals.push(q.normal_p1);
                    mesh_3d.vertices.push(raise(q.p0, back));
                    mesh_3d.normals.push(q.normal_p0);
                    mesh_3d.indices.push(base_idx);
                    mesh_3d.indices.push(base_idx + 1);
                    mesh_3d.indices.push(base_idx + 2);
                    mesh_3d.indices.push(base_idx);
                    mesh_3d.indices.push(base_idx + 2);
                    mesh_3d.indices.push(base_idx + 3);
                    proof {
                        let vs = seq![
                            raised(q.p0, half_depth),
                            raised(q.p1, half_depth),
                            raised(q.p1, back),
                            raised(q.p0, back),
                        ];
                        assert(mesh_3d.vertices@ =~= old(mesh_3d).vertices@ + (wall_vertices(
                            done,
                            half_depth,
                            back,
                        ) + vs));
                        let ns = seq![q.normal_p0, q.normal_p1, q.normal_p1, q.normal_p0];
                        assert(mesh_3d.normals@ =~= old(mesh_3d).normals@ + (wall_normals(done)
                            + ns));
                        let k = done.len() as int;
                        let is = seq![
                            (first + 4 * k) as u32,
                            (first + 4 * k + 1) as u32,
                            (first + 4 * k + 2) as u32,
                            (first + 4 * k) as u32,
                            (first + 4 * k + 2) as u32,
                            (first + 4 * k + 3) as u32,
                        ];
                        assert(mesh_3d.indices@ =~= old(mesh_3d).indices@ + (wall_indices(
                            first,
                            done.len(),
                        ) + is));
                        done = done.push(q);
                    }
                },
            }
            i += 1;
        }
        c += 1;
    }
}

/// Whether two numbers per flat vertex and four per outline edge stay
/// within 32 bits.
fn counts_fit(mesh_2d: &Mesh2D, outline: &Outline2D) -> (r: bool)
    ensures
        r == (2 * mesh_2d.vertices@.len() + 4 * outline_edges(
            outline.contours@,
            outline.contours@.len(),
        ) <= u32::MAX),
{
    let limit: u64 = 0xffff_ffff;
    let flat = mesh_2d.vertices.len() as u64;
    if flat > limit / 2 {
        return false;
    }
    let mut room: u64 = limit - 2 * flat;
    let mut c: usize = 0;
    while c < outline.contours.len()
        invariant
            c <= outline.contours@.len(),
            room + 2 * mesh_2d.vertices@.len() + 4 * outline_edges(outline.contours@, c as nat)
                == 0xffff_ffff,
        decreases outline.contours@.len() - c,
    {
        let contour = &outline.contours[c];
        let n = contour.points.len();
        let edges: u64 = if n < 2 {
            0
        } else if contour.closed {
            n as u64
        } else {
            (n - 1) as u64
        };
        proof {
            lemma_outline_edges_grow(
                outline.contours@,
                (c + 1) as nat,
                outline.contours@.len(),
            );
        }
        if edges > room / 4 {
            return false;
        }
        room = room - 4 * edges;
        c += 1;
    }
    true
}

/// Every vertex of the solid stands at half the depth or at minus half
/// the depth, over a flat vertex or an end of a panel.
pub proof fn lemma_solid_depths(flat: Seq<Point2D>, panels: Seq<WallQuad>, depth: Point3D, i: int)
    requires
        0 <= i < solid_vertices(flat, panels, depth).len(),
    ensures
        (exists|p: Point2D|
            solid_vertices(flat, panels, depth)[i] == #[trigger] raised(p, front_level(depth)))
            || (exists|p: Point2D|
            solid_vertices(flat, panels, depth)[i] == #[trigger] raised(p, back_level(depth))),
{
    let front = front_level(depth);
    let back = back_level(depth);
    let n = flat.len() as int;
    let v = solid_vertices(flat, panels, depth)[i];
    if i < n {
        assert(v == raised(flat[i], front));
    } else if i < 2 * n {
        assert(v == raised(flat[i - n], back));
    } else {
        let k = i - 2 * n;
        let q = panels[k / 4];
        assert(v == wall_vertices(panels, front, back)[k]);
        if k % 4 == 0 {
            assert(v == raised(q.p0, front));
        } else if k % 4 == 1 {
            assert(v == raised(q.p1, front));
        } else if k % 4 == 2 {
            assert(v == raised(q.p1, back));
        } else {
            assert(v == raised(q.p0, back));
        }
    }
}

/// Where the flat mesh is well formed, so is the solid over it.
pub proof fn lemma_solid_well_formed(mesh: Mesh2D, panels: Seq<WallQuad>, depth: Point3D)
    requires
        mesh.well_formed(),
        2 * mesh.vertices@.len() + 4 * panels.len() <= u32::MAX,
    ensures
        solid_vertices(mesh.vertices@, panels, depth).len() == 2 * mesh.vertices@.len() + 4
            * panels.len(),
        solid_normals(mesh.vertices@.len(), panels).len() == 2 * mesh.vertices@.len() + 4
            * panels.len(),
        triangles_within(
            solid_indices(mesh.indices@, mesh.vertices@.len(), panels.len()),
            2 * mesh.vertices@.len() + 4 * panels.len(),
        ),
{
    let nv = mesh.vertices@.len() as int;
    let all = solid_indices(mesh.indices@, mesh.vertices@.len(), panels.len());
    let front = mesh.indices@;
    let back = flipped_triangles(mesh.indices@, nv);
    let walls = wall_indices(2 * nv, panels.len());
    assert(all.len() == front.len() + back.len() + walls.len());
    assert forall|i: int| 0 <= i < all.len() implies (#[trigger] all[i]) < 2 * nv + 4
        * panels.len() by {
        if i < front.len() {
            assert(all[i] == front[i]);
        } else if i < front.len() + back.len() {
            let j = i - front.len();
            assert(all[i] == back[j]);
            let t = j / 3;
            assert(0 <= 3 * t && 3 * t + 2 < front.len());
            assert(front[3 * t] < nv);
            assert(front[3 * t + 1] < nv);
            assert(front[3 * t + 2] < nv);
        } else {
            let j = i - front.len() - back.len();
            assert(all[i] == walls[j]);
            assert(0 <= j / 6 < panels.len());
        }
    }
}

/// Whether the mesh holds nothing.
pub open spec fn is_cleared(mesh: Mesh3D) -> bool {
    &&& mesh.vertices@.len() == 0
    &&& mesh.normals@.len() == 0
    &&& mesh.indices@.len() == 0
}

/// Extrudes a flat mesh into a solid of the given depth, into a mesh that
/// the caller keeps: what `mesh_3d` held is dropped and the solid is
/// written in its place. Where the extrusion fails, `mesh_3d` is left
/// holding nothing.
pub fn extrude_into(mesh_2d: &Mesh2D, outline: &Outline2D, depth: Point3D, mesh_3d: &mut Mesh3D) -> (r:
    Result<(), FontMeshError>)
    ensures
        r is Ok <==> extrusion_fits(*mesh_2d, *outline),
        r is Err ==> r->Err_0 is ExtrusionFailed && r->Err_0.detail() == misfit(
            mesh_2d.vertices@.len(),
            *outline,
        ) && is_cleared(*final(mesh_3d)),
        r is Ok ==> ({
            let m = *final(mesh_3d);
            let panels = all_panels(*outline);
            &&& m.vertices@ == solid_vertices(mesh_2d.vertices@, panels, depth)
            &&& m.normals@ == solid_normals(mesh_2d.vertices@.len(), panels)
            &&& m.indices@ == solid_indices(mesh_2d.indices@, mesh_2d.vertices@.len(), panels.len())
            &&& m.normals@.len() == m.vertices@.len()
            &&& mesh_2d.well_formed() ==> m.well_formed()
        }),
{
    mesh_3d.clear();
    if !counts_fit(mesh_2d, outline) {
        return Err(FontMeshError::ExtrusionFailed("too many vertices".to_owned()));
    }
    let front = div3(depth, splat(2));
    let back = negate3(front);
    let normal_front = raise(number(0), splat(1));
    let normal_back = raise(number(0), negate3(splat(1)));
    let flat = mesh_2d.vertices.len();

    let mut i: usize = 0;
    while i < flat
        invariant
            i <= flat,
            flat == mesh_2d.vertices@.len(),
            mesh_3d.vertices@ == cap_vertices(mesh_2d.vertices@.take(i as int), front),
            mesh_3d.normals@ == cap_normals(i as nat, normal_front),
            mesh_3d.indices@ == Seq::<u32>::empty(),
        decreases flat - i,
    {
        mesh_3d.vertices.push(raise(mesh_2d.vertices[i], front));
        mesh_3d.normals.push(normal_front);
        i += 1;
        assert(mesh_3d.vertices@ =~= cap_vertices(mesh_2d.vertices@.take(i as int), front));
        assert(mesh_3d.normals@ =~= cap_normals(i as nat, normal_front));
    }
    assert(mesh_2d.vertices@.take(flat as int) =~= mesh_2d.vertices@);

    let mut j: usize = 0;
    while j < mesh_2d.indices.len()
        invariant
            j <= mesh_2d.indices@.len(),
            mesh_3d.vertices@ == cap_vertices(mesh_2d.vertices@, front),
            mesh_3d.normals@ == cap_normals(flat as nat, normal_front),
            mesh_3d.indices@ == mesh_2d.indices@.take(j as int),
        decreases mesh_2d.indices@.len() - j,
    {
        mesh_3d.indices.push(mesh_2d.indices[j]);
        j += 1;
        assert(mesh_3d.indices@ =~= mesh_2d.indices@.take(j as int));
    }
    assert(mesh_2d.indices@.take(mesh_2d.indices@.len() as int) =~= mesh_2d.indices@);

    let back_offset = flat as u32;
    let mut i: usize = 0;
    while i < flat
        invariant
            i <= flat,
            flat == mesh_2d.vertices@.len(),
            mesh_3d.vertices@ == cap_vertices(mesh_2d.vertices@, front) + cap_vertices(
                mesh_2d.vertices@.take(i as int),
                back,
            ),
            mesh_3d.normals@ == cap_normals(flat as nat, normal_front) + cap_normals(
                i as nat,
                normal_back,
            ),
            mesh_3d.indices@ == mesh_2d.indices@,
        decreases flat - i,
    {
        mesh_3d.vertices.push(raise(mesh_2d.vertices[i], back));
        mesh_3d.normals.push(normal_back);
        i += 1;
        assert(mesh_3d.vertices@ =~= cap_vertices(mesh_2d.vertices@, front) + cap_vertices(
            mesh_2d.vertices@.take(i as int),
            back,
        ));
        assert(mesh_3d.normals@ =~= cap_normals(flat as nat, normal_front) + cap_normals(
            i as nat,
            normal_back,
        ));
    }

    let index_count = mesh_2d.indices.len();
    let triangles = index_count / 3;
    let mut t: usize = 0;
    while t < triangles
        invariant
            t <= triangles,
            index_count == mesh_2d.indices@.len(),
            triangles == index_count / 3,
            flat == mesh_2d.vertices@.len(),
            2 * flat + 4 * outline_edges(outline.contours@, outline.contours@.len()) <= u32::MAX,
            back_offset == flat,
            mesh_3d.vertices@ == cap_vertices(mesh_2d.vertices@, front) + cap_vertices(
                mesh_2d.vertices@,
                back,
            ),
            mesh_3d.normals@ == cap_normals(flat as nat, normal_front) + cap_normals(
                flat as nat,
                normal_back,
            ),
            mesh_3d.indices@ == mesh_2d.indices@ + flipped_triangles(
                mesh_2d.indices@,
                flat as int,
            ).take(3 * t),
            forall|k: int|
                0 <= k < 3 * t ==> flat + (#[trigger] mesh_2d.indices@[k]) <= u32::MAX,
        decreases triangles - t,
    {
        assert(3 * t + 2 < index_count);
        let a = mesh_2d.indices[3 * t];
        let b = mesh_2d.indices[3 * t + 1];
        let c = mesh_2d.indices[3 * t + 2];
        let room = 0xffff_ffffu32 - back_offset;
        if a > room || b > room || c > room {
            mesh_3d.clear();
            return Err(FontMeshError::ExtrusionFailed("vertex index too large".to_owned()));
        }
        mesh_3d.indices.push(back_offset + a);
        mesh_3d.indices.push(back_offset + c);
        mesh_3d.indices.push(back_offset + b);
        proof {
            let flipped = flipped_triangles(mesh_2d.indices@, flat as int);
            assert((3 * t) / 3 == t && (3 * t + 1) / 3 == t && (3 * t + 2) / 3 == t);
            assert(flipped.take(3 * t + 3) =~= flipped.take(3 * t).push(flipped[3 * t]).push(
                flipped[3 * t + 1],
            ).push(flipped[3 * t + 2]));
        }
        t += 1;
        assert(mesh_3d.indices@ =~= mesh_2d.indices@ + flipped_triangles(
            mesh_2d.indices@,
            flat as int,
        ).take(3 * t));
    }
    proof {
        let flipped = flipped_triangles(mesh_2d.indices@, flat as int);
        assert(flipped.take(3 * triangles) =~= flipped);
        assert(mesh_2d.vertices@.take(flat as int) =~= mesh_2d.vertices@);
        lemma_outline_panels_len(outline.contours@, outline.contours@.len());
    }

    create_side_faces(mesh_3d, outline, front);
    proof {
        let panels = all_panels(*outline);
        if mesh_2d.well_formed() {
            lemma_solid_well_formed(*mesh_2d, panels, depth);
        }
    }
    Ok(())
}

/// Extrudes a flat mesh into a solid of the given depth, which is read
/// from the third lane of `depth`.
///
/// The front cap stands at half the depth and keeps the flat triangles;
/// the back cap stands at minus half the depth with every triangle turned
/// over; a wall panel of two triangles runs along every outline edge that
/// is not skipped. Fails only where the solid's vertices cannot be
/// numbered in 32 bits.
pub fn extrude(mesh_2d: &Mesh2D, outline: &Outline2D, depth: Point3D) -> (r: Result<
    Mesh3D,
    FontMeshError,
>)
    ensures
        r is Ok <==> extrusion_fits(*mesh_2d, *outline),
        r is Err ==> r->Err_0 is ExtrusionFailed && r->Err_0.detail() == misfit(
            mesh_2d.vertices@.len(),
            *outline,
        ),
        r is Ok ==> ({
            let m = r->Ok_0;
            let panels = all_panels(*outline);
            &&& m.vertices@ == solid_vertices(mesh_2d.vertices@, panels, depth)
            &&& m.normals@ == solid_normals(mesh_2d.vertices@.len(), panels)
            &&& m.indices@ == solid_indices(mesh_2d.indices@, mesh_2d.vertices@.len(), panels.len())
            &&& m.normals@.len() == m.vertices@.len()
            &&& mesh_2d.well_formed() ==> m.well_formed()
        }),
{
    let mut mesh_3d = Mesh3D::new();
    match extrude_into(mesh_2d, outline, depth, &mut mesh_3d) {
        Ok(()) => Ok(mesh_3d),
        Err(e) => Err(e),
    }
}

impl Mesh2D {
    /// Extrudes this mesh into a solid of the given depth: `extrude`, with
    /// the mesh in front.
    pub fn extrude(&self, outline: &Outline2D, depth: Point3D) -> (r: Result<
        Mesh3D,
        FontMeshError,
    >)
        ensures
            r is Ok <==> extrusion_fits(*self, *outline),
            r is Err ==> r->Err_0 is ExtrusionFailed && r->Err_0.detail() == misfit(
                self.vertices@.len(),
                *outline,
            ),
            r is Ok ==> ({
                let m = r->Ok_0;
                &&& m.vertices@ == solid_vertices(self.vertices@, all_panels(*outline), depth)
                &&& m.normals@ == solid_normals(self.vertices@.len(), all_panels(*outline))
                &&& m.indices@ == solid_indices(
                    self.indices@,
                    self.vertices@.len(),
                    all_panels(*outline).len(),
                )
                &&& m.normals@.len() == m.vertices@.len()
                &&& self.well_formed() ==> m.well_formed()
            }),
    {
        extrude(self, outline, depth)
    }
}

impl Outline2D {
    /// Triangulates this outline and extrudes the mesh along it.
    ///
    /// Fails as triangulation fails; else with `ExtrusionFailed` where the
    /// solid cannot be numbered in 32 bits.
    pub fn to_mesh_3d(&self, depth: Point3D) -> (r: Result<Mesh3D, FontMeshError>)
        ensures
            match triangulation(*self) {
                Err(detail) => r is Err && r->Err_0 is TriangulationFailed && r->Err_0.detail()
                    == detail,
                Ok((vertices, indices)) => if solid_fits(vertices.len(), indices, *self) {
                    &&& r is Ok
                    &&& r->Ok_0.vertices@ == solid_vertices(vertices, all_panels(*self), depth)
                    &&& r->Ok_0.normals@ == solid_normals(vertices.len(), all_panels(*self))
                    &&& r->Ok_0.indices@ == solid_indices(
                        indices,
                        vertices.len(),
                        all_panels(*self).len(),
                    )
                    &&& r->Ok_0.well_formed()
                } else {
                    r is Err && r->Err_0 is ExtrusionFailed && r->Err_0.detail() == misfit(
                        vertices.len(),
                        *self,
                    )
                },
            },
    {
        match triangulate(self) {
            Ok(mesh_2d) => extrude(&mesh_2d, self, depth),
            Err(e) => Err(e),
        }
    }
}

} // verus!
