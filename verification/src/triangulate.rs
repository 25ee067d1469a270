//! Triangulation of a linearized outline under the even-odd rule.
//!
//! The triangles come from lyon's fill tessellator. The outline is handed
//! to it as one path with a sub-path per contour, so that a contour inside
//! another cuts a hole, whichever way either winds.

use vstd::prelude::*;
use crate::error::{push_str, FontMeshError};
use crate::types::{triangles_within, Contour, ContourPoint, Mesh2D, Outline2D};
use crate::vecmath::{finite2, Point2D};

verus! {

/// A path under construction: lyon's `path::Builder`, held out of sight.
/// What it holds is spoken of through `ended_subpaths` and `open_subpath`.
#[verifier::external_body]
pub struct PathBuilder {
    inner: lyon_tessellation::path::path::Builder,
}

/// `lyon_path::Path`: a finished path, opaque here.
#[verifier::external_type_specification]
#[verifier::external_body]
pub struct ExPath(lyon_tessellation::path::Path);

/// `lyon_tessellation::TessellationError`, opaque here.
#[verifier::external_type_specification]
#[verifier::external_body]
pub struct ExTessellationError(lyon_tessellation::TessellationError);

/// The sub-paths that the builder has ended: the points of each, and
/// whether it was closed.
pub uninterp spec fn ended_subpaths(builder: PathBuilder) -> Seq<(Seq<Point2D>, bool)>;

/// The points of the sub-path in progress, where there is one.
pub uninterp spec fn open_subpath(builder: PathBuilder) -> Option<Seq<Point2D>>;

/// The sub-paths of a path: the points of each, and whether it is closed.
pub uninterp spec fn path_subpaths(path: lyon_tessellation::path::Path) -> Seq<(Seq<Point2D>, bool)>;

/// The vertices and indices that lyon's fill tessellator gives for a path
/// of these sub-paths under the even-odd rule with its other options at
/// their defaults, or the error that it reports.
pub uninterp spec fn even_odd_fill(subpaths: Seq<(Seq<Point2D>, bool)>) -> Result<
    (Seq<Point2D>, Seq<u32>),
    lyon_tessellation::TessellationError,
>;

/// The text of a tessellation error, as its `Debug` form gives it.
pub uninterp spec fn tessellation_error_text(error: lyon_tessellation::TessellationError) -> Seq<
    char,
>;

/// `lyon_path::Path::builder`: a builder that holds nothing.
#[verifier::external_body]
fn path_builder() -> (builder: PathBuilder)
    ensures
        ended_subpaths(builder) == Seq::<(Seq<Point2D>, bool)>::empty(),
        open_subpath(builder) is None,
{
    PathBuilder { inner: lyon_tessellation::path::Path::builder() }
}

/// The builder's `begin`: starts a sub-path at `at`. lyon wants no
/// sub-path in progress, and a finite point.
#[verifier::external_body]
fn path_begin(builder: &mut PathBuilder, at: Point2D)
    requires
        open_subpath(*old(builder)) is None,
        finite2(at),
    ensures
        ended_subpaths(*final(builder)) == ended_subpaths(*old(builder)),
        open_subpath(*final(builder)) == Some(seq![at]),
{
    builder.inner.begin(lyon_tessellation::math::point(at.x, at.y));
}

/// The builder's `line_to`: adds a point to the sub-path in progress.
/// lyon wants such a sub-path, and a finite point.
#[verifier::external_body]
fn path_line_to(builder: &mut PathBuilder, to: Point2D)
    requires
        open_subpath(*old(builder)) is Some,
        finite2(to),
    ensures
        ended_subpaths(*final(builder)) == ended_subpaths(*old(builder)),
        open_subpath(*final(builder)) == Some(open_subpath(*old(builder))->Some_0.push(to)),
{
    builder.inner.line_to(lyon_tessellation::math::point(to.x, to.y));
}

/// The builder's `end`: ends the sub-path in progress, closed or open.
/// lyon wants such a sub-path.
#[verifier::external_body]
fn path_end(builder: &mut PathBuilder, close: bool)
    requires
        open_subpath(*old(builder)) is Some,
    ensures
        ended_subpaths(*final(builder)) == ended_subpaths(*old(builder)).push(
            (open_subpath(*old(builder))->Some_0, close),
        ),
        open_subpath(*final(builder)) is None,
{
    builder.inner.end(close);
}

/// The builder's `build`: the path of the sub-paths ended so far. lyon
/// wants no sub-path in progress.
#[verifier::external_body]
fn path_build(builder: PathBuilder) -> (path: lyon_tessellation::path::Path)
    requires
        open_subpath(builder) is None,
    ensures
        path_subpaths(path) == ended_subpaths(builder),
{
    builder.inner.build()
}

/// lyon's `FillTessellator::tessellate_path` under the even-odd rule, into
/// lyon's own vertex buffers, each vertex kept as its position. The result
/// is taken to depend on the path alone. Built with debug assertions, lyon
/// checks its own working as it goes; no input is known to fail them.
#[verifier::external_body]
fn fill_even_odd(path: &lyon_tessellation::path::Path) -> (r: Result<
    (Vec<Point2D>, Vec<u32>),
    lyon_tessellation::TessellationError,
>)
    ensures
        even_odd_fill(path_subpaths(*path)) == (match r {
            Ok(buffers) => Ok::<(Seq<Point2D>, Seq<u32>), lyon_tessellation::TessellationError>(
                (buffers.0@, buffers.1@),
            ),
            Err(error) => Err(error),
        }),
{
    let mut geometry: lyon_tessellation::VertexBuffers<Point2D, u32> =
        lyon_tessellation::VertexBuffers::new();
    let options = lyon_tessellation::FillOptions::default().with_fill_rule(
        lyon_tessellation::FillRule::EvenOdd,
    );
    let mut output = lyon_tessellation::BuffersBuilder::new(
        &mut geometry,
        |v: lyon_tessellation::FillVertex| glam::Vec2::new(v.position().x, v.position().y),
    );
    lyon_tessellation::FillTessellator::new().tessellate_path(path, &options, &mut output)?;
    Ok((geometry.vertices, geometry.indices))
}

/// The text of a tessellation error, as its `Debug` form gives it.
#[verifier::external_body]
fn describe_failure(error: &lyon_tessellation::TessellationError) -> (text: String)
    ensures
        text@ == tessellation_error_text(*error),
{
    format!("{:?}", error)
}

/// The sub-paths for the first `upto` contours: one per contour that has
/// points, with its positions and its closing.
pub open spec fn subpaths_upto(contours: Seq<Contour>, upto: nat) -> Seq<(Seq<Point2D>, bool)>
    decreases upto,
{
    if upto == 0 {
        Seq::empty()
    } else {
        let before = subpaths_upto(contours, (upto - 1) as nat);
        let contour = contours[upto - 1];
        if contour.points@.len() == 0 {
            before
        } else {
            before.push((contour.positions(), contour.closed))
        }
    }
}

/// The sub-paths of an outline.
pub open spec fn outline_subpaths(outline: Outline2D) -> Seq<(Seq<Point2D>, bool)> {
    subpaths_upto(outline.contours@, outline.contours@.len())
}

/// Whether every point of the outline is finite.
pub open spec fn all_finite(outline: Outline2D) -> bool {
    forall|c: int, i: int|
        0 <= c < outline.contours@.len() && 0 <= i < outline.contours@[c].points@.len()
            ==> finite2(#[trigger] outline.contours@[c].points@[i].point)
}

/// What a mesh over these buffers owes: the buffers, where the indices
/// list whole triangles over the vertices, or what is wrong with them.
pub open spec fn checked_buffers(vertices: Seq<Point2D>, indices: Seq<u32>) -> Result<
    (Seq<Point2D>, Seq<u32>),
    Seq<char>,
> {
    if indices.len() % 3 != 0 {
        Err("indices do not come in threes"@)
    } else if !triangles_within(indices, vertices.len()) {
        Err("index beyond the vertices"@)
    } else {
        Ok((vertices, indices))
    }
}

/// What triangulation owes for an outline, given what the tessellator
/// gives for its sub-paths: the vertices and indices of a mesh where the
/// outline has a contour, all its points are finite, and the tessellator
/// gives whole triangles over its own vertices; else the detail of the
/// failure.
pub open spec fn triangulation(outline: Outline2D) -> Result<(Seq<Point2D>, Seq<u32>), Seq<char>> {
    if outline.contours@.len() == 0 {
        Err("Empty outline"@)
    } else if !all_finite(outline) {
        Err("point is not finite"@)
    } else {
        match even_odd_fill(outline_subpaths(outline)) {
            Ok((vertices, indices)) => checked_buffers(vertices, indices),
            Err(error) => Err("Lyon tessellation failed: "@ + tessellation_error_text(error)),
        }
    }
}

/// Whether `r` is what triangulation owes for the outline: the mesh of
/// its vertices and indices, or `TriangulationFailed` with the detail.
pub open spec fn is_triangulation(r: Result<Mesh2D, FontMeshError>, outline: Outline2D) -> bool {
    match triangulation(outline) {
        Ok((vertices, indices)) => r is Ok && r->Ok_0.vertices@ == vertices && r->Ok_0.indices@
            == indices && r->Ok_0.well_formed(),
        Err(detail) => r is Err && r->Err_0 is TriangulationFailed && r->Err_0.detail() == detail,
    }
}

/// The mesh over these buffers, where the indices list whole triangles
/// over the vertices.
pub fn mesh_from_buffers(vertices: Vec<Point2D>, indices: Vec<u32>) -> (r: Result<
    Mesh2D,
    FontMeshError,
>)
    ensures
        match checked_buffers(vertices@, indices@) {
            Ok(_) => r is Ok && r->Ok_0.vertices@ == vertices@ && r->Ok_0.indices@ == indices@
                && r->Ok_0.well_formed(),
            Err(detail) => r is Err && r->Err_0 is TriangulationFailed && r->Err_0.detail()
                == detail,
        },
{
    if indices.len() % 3 != 0 {
        return Err(
            FontMeshError::TriangulationFailed("indices do not come in threes".to_owned()),
        );
    }
    let count = vertices.len();
    let mut i: usize = 0;
    while i < indices.len()
        invariant
            i <= indices@.len(),
            indices@.len() % 3 == 0,
            count == vertices@.len(),
            forall|j: int| 0 <= j < i ==> (#[trigger] indices@[j]) < count,
        decreases indices@.len() - i,
    {
        if indices[i] as usize >= count {
            assert(!(indices@[i as int] < vertices@.len()));
            return Err(
                FontMeshError::TriangulationFailed("index beyond the vertices".to_owned()),
            );
        }
        i += 1;
    }
    Ok(Mesh2D { vertices, indices })
}

/// Triangulates a linearized outline under the even-odd rule.
///
/// Fails with `TriangulationFailed` where the outline has no contour or a
/// point that is not finite, where the tessellator reports an error, and
/// where what it gives is not whole triangles over its own vertices.
pub fn triangulate(outline: &Outline2D) -> (r: Result<Mesh2D, FontMeshError>)
    ensures
        is_triangulation(r, *outline),
        r is Ok ==> r->Ok_0.well_formed(),
{
    if outline.is_empty() {
        return Err(FontMeshError::TriangulationFailed("Empty outline".to_owned()));
    }
    let mut builder = path_builder();
    let mut c: usize = 0;
    while c < outline.contours.len()
        invariant
            c <= outline.contours@.len(),
            open_subpath(builder) is None,
            ended_subpaths(builder) == subpaths_upto(outline.contours@, c as nat),
            forall|k: int, i: int|
                0 <= k < c && 0 <= i < outline.contours@[k].points@.len() ==> finite2(
                    #[trigger] outline.contours@[k].points@[i].point,
                ),
        decreases outline.contours@.len() - c,
    {
        let contour = &outline.contours[c];
        let n = contour.points.len();
        if n > 0 {
            let mut i: usize = 0;
            while i < n
                invariant
                    i <= n,
                    n == contour.points@.len(),
                    n > 0,
                    c < outline.contours@.len(),
                    *contour == outline.contours@[c as int],
                    ended_subpaths(builder) == subpaths_upto(outline.contours@, c as nat),
                    forall|j: int| 0 <= j < i ==> finite2(#[trigger] contour.points@[j].point),
                    if i == 0 {
                        open_subpath(builder) is None
                    } else {
                        open_subpath(builder) == Some(contour.positions().take(i as int))
                    },
                decreases n - i,
            {
                let p = contour.points[i].point;
                if !p.is_finite() {
                    return Err(
                        FontMeshError::TriangulationFailed("point is not finite".to_owned()),
                    );
                }
                if i == 0 {
                    path_begin(&mut builder, p);
                    assert(seq![p] =~= contour.positions().take(1));
                } else {
                    path_line_to(&mut builder, p);
                    assert(contour.positions().take(i as int).push(p) =~= contour.positions().take(
                        i + 1,
                    ));
                }
                i += 1;
            }
            assert(contour.positions().take(n as int) =~= contour.positions());
            path_end(&mut builder, contour.closed);
        }
        c += 1;
    }
    let path = path_build(builder);
    match fill_even_odd(&path) {
        Err(error) => {
            let mut text = "Lyon tessellation failed: ".to_owned();
            let detail = describe_failure(&error);
            push_str(&mut text, detail.as_str());
            Err(FontMeshError::TriangulationFailed(text))
        },
        Ok((vertices, indices)) => mesh_from_buffers(vertices, indices),
    }
}

/// Triangulates a linearized outline into a mesh that the caller keeps:
/// what `mesh_2d` held is dropped and the triangles are written in its
/// place. Where triangulation fails, `mesh_2d` is left holding nothing.
pub fn triangulate_into(outline: &Outline2D, mesh_2d: &mut Mesh2D) -> (r: Result<(), FontMeshError>)
    ensures
        match triangulation(*outline) {
            Ok((vertices, indices)) => r is Ok && final(mesh_2d).vertices@ == vertices
                && final(mesh_2d).indices@ == indices,
            Err(detail) => r is Err && r->Err_0 is TriangulationFailed && r->Err_0.detail()
                == detail && final(mesh_2d).vertices@.len() == 0 && final(mesh_2d).indices@.len()
                == 0,
        },
        final(mesh_2d).well_formed(),
{
    mesh_2d.clear();
    match triangulate(outline) {
        Ok(mesh) => {
            *mesh_2d = mesh;
            Ok(())
        },
        Err(e) => Err(e),
    }
}

impl Outline2D {
    /// Triangulates this outline under the even-odd rule: `triangulate`,
    /// with the outline in front.
    pub fn triangulate(&self) -> (r: Result<Mesh2D, FontMeshError>)
        ensures
            is_triangulation(r, *self),
            r is Ok ==> r->Ok_0.well_formed(),
    {
        triangulate(self)
    }
}

} // verus!
