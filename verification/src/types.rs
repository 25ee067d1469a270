//! Outlines and meshes.

use vstd::prelude::*;
use crate::vecmath::{Point2D, Point3D};

verus! {

/// A point of a contour: a position, and whether the contour passes through
/// it or is only pulled toward it.
#[derive(Debug, Clone, Copy)]
pub struct ContourPoint {
    pub point: Point2D,
    pub on_curve: bool,
}

impl ContourPoint {
    pub fn new(point: Point2D, on_curve: bool) -> (r: Self)
        ensures
            r == (ContourPoint { point, on_curve }),
    {
        ContourPoint { point, on_curve }
    }

    pub fn on_curve(point: Point2D) -> (r: Self)
        ensures
            r == (ContourPoint { point, on_curve: true }),
    {
        ContourPoint { point, on_curve: true }
    }

    pub fn off_curve(point: Point2D) -> (r: Self)
        ensures
            r == (ContourPoint { point, on_curve: false }),
    {
        ContourPoint { point, on_curve: false }
    }
}

/// One path of an outline. A closed contour has an edge from its last point
/// back to its first.
#[derive(Debug, Clone)]
pub struct Contour {
    pub points: Vec<ContourPoint>,
    pub closed: bool,
}

impl Contour {
    /// The positions of the points, in order.
    pub open spec fn positions(self) -> Seq<Point2D> {
        Seq::new(self.points@.len(), |i: int| self.points@[i].point)
    }

    /// Whether the contour passes through every one of its points.
    pub open spec fn is_polyline(self) -> bool {
        forall|i: int| 0 <= i < self.points@.len() ==> (#[trigger] self.points@[i]).on_curve
    }

    /// The number of edges: none below two points, else one per point when
    /// closed and one less when open.
    pub open spec fn edge_count(self) -> nat {
        if self.points@.len() < 2 {
            0
        } else if self.closed {
            self.points@.len()
        } else {
            (self.points@.len() - 1) as nat
        }
    }

    pub fn new(closed: bool) -> (r: Self)
        ensures
            r.points@ == Seq::<ContourPoint>::empty(),
            r.closed == closed,
    {
        Contour { points: Vec::new(), closed }
    }

    pub fn push(&mut self, point: ContourPoint)
        ensures
            final(self).points@ == old(self).points@.push(point),
            final(self).closed == old(self).closed,
    {
        self.points.push(point);
    }

    pub fn push_on_curve(&mut self, point: Point2D)
        ensures
            final(self).points@ == old(self).points@.push(ContourPoint { point, on_curve: true }),
            final(self).closed == old(self).closed,
    {
        self.points.push(ContourPoint { point, on_curve: true });
    }

    pub fn push_off_curve(&mut self, point: Point2D)
        ensures
            final(self).points@ == old(self).points@.push(ContourPoint { point, on_curve: false }),
            final(self).closed == old(self).closed,
    {
        self.points.push(ContourPoint { point, on_curve: false });
    }

    pub fn is_empty(&self) -> (r: bool)
        ensures
            r == (self.points@.len() == 0),
    {
        self.points.len() == 0
    }
}

/// The shape of one glyph: its contours, outer boundaries and holes alike.
#[derive(Debug, Clone)]
pub struct Outline2D {
    pub contours: Vec<Contour>,
}

impl Outline2D {
    /// Whether every contour is a polyline.
    pub open spec fn is_linear(self) -> bool {
        forall|c: int| 0 <= c < self.contours@.len() ==> (#[trigger] self.contours@[c]).is_polyline()
    }

    pub fn new() -> (r: Self)
        ensures
            r.contours@ == Seq::<Contour>::empty(),
    {
        Outline2D { contours: Vec::new() }
    }

    pub fn add_contour(&mut self, contour: Contour)
        ensures
            final(self).contours@ == old(self).contours@.push(contour),
    {
        self.contours.push(contour);
    }

    pub fn is_empty(&self) -> (r: bool)
        ensures
            r == (self.contours@.len() == 0),
    {
        self.contours.len() == 0
    }
}

impl Default for Outline2D {
    fn default() -> (r: Self)
        ensures
            r.contours@ == Seq::<Contour>::empty(),
    {
        Outline2D::new()
    }
}

/// A flat triangle mesh: every three indices name the corners of a triangle.
#[derive(Debug, Clone)]
pub struct Mesh2D {
    pub vertices: Vec<Point2D>,
    pub indices: Vec<u32>,
}

/// Whether `indices` lists whole triangles over `vertex_count` vertices.
pub open spec fn triangles_within(indices: Seq<u32>, vertex_count: nat) -> bool {
    &&& indices.len() % 3 == 0
    &&& forall|i: int| 0 <= i < indices.len() ==> (#[trigger] indices[i]) < vertex_count
}

impl Mesh2D {
    /// The indices come in threes and each names a vertex.
    pub open spec fn well_formed(self) -> bool {
        triangles_within(self.indices@, self.vertices@.len())
    }

    pub fn new() -> (r: Self)
        ensures
            r.vertices@ == Seq::<Point2D>::empty(),
            r.indices@ == Seq::<u32>::empty(),
            r.well_formed(),
    {
        Mesh2D { vertices: Vec::new(), indices: Vec::new() }
    }

    /// The number of whole triangles.
    pub fn triangle_count(&self) -> (r: usize)
        ensures
            r == self.indices@.len() / 3,
    {
        self.indices.len() / 3
    }

    pub fn is_empty(&self) -> (r: bool)
        ensures
            r == (self.vertices@.len() == 0),
    {
        self.vertices.len() == 0
    }

    /// Empties the mesh for another filling. What it has allocated stays.
    pub fn clear(&mut self)
        ensures
            final(self).vertices@ == Seq::<Point2D>::empty(),
            final(self).indices@ == Seq::<u32>::empty(),
            final(self).well_formed(),
    {
        self.vertices.clear();
        self.indices.clear();
    }
}

impl Default for Mesh2D {
    fn default() -> (r: Self)
        ensures
            r.vertices@ == Seq::<Point2D>::empty(),
            r.indices@ == Seq::<u32>::empty(),
    {
        Mesh2D::new()
    }
}

/// A triangle mesh in space, with one normal per vertex.
#[derive(Debug, Clone)]
pub struct Mesh3D {
    pub vertices: Vec<Point3D>,
    pub normals: Vec<Point3D>,
    pub indices: Vec<u32>,
}

impl Mesh3D {
    /// There is one normal per vertex, the indices come in threes and each
    /// names a vertex.
    pub open spec fn well_formed(self) -> bool {
        &&& self.normals@.len() == self.vertices@.len()
        &&& triangles_within(self.indices@, self.vertices@.len())
    }

    pub fn new() -> (r: Self)
        ensures
            r.vertices@ == Seq::<Point3D>::empty(),
            r.normals@ == Seq::<Point3D>::empty(),
            r.indices@ == Seq::<u32>::empty(),
            r.well_formed(),
    {
        Mesh3D { vertices: Vec::new(), normals: Vec::new(), indices: Vec::new() }
    }

    /// The number of whole triangles.
    pub fn triangle_count(&self) -> (r: usize)
        ensures
            r == self.indices@.len() / 3,
    {
        self.indices.len() / 3
    }

    pub fn is_empty(&self) -> (r: bool)
        ensures
            r == (self.vertices@.len() == 0),
    {
        self.vertices.len() == 0
    }

    /// Empties the mesh for another filling. What it has allocated stays.
    pub fn clear(&mut self)
        ensures
            final(self).vertices@ == Seq::<Point3D>::empty(),
            final(self).normals@ == Seq::<Point3D>::empty(),
            final(self).indices@ == Seq::<u32>::empty(),
            final(self).well_formed(),
    {
        self.vertices.clear();
        self.normals.clear();
        self.indices.clear();
    }
}

impl Default for Mesh3D {
    fn default() -> (r: Self)
        ensures
            r.vertices@ == Seq::<Point3D>::empty(),
            r.normals@ == Seq::<Point3D>::empty(),
            r.indices@ == Seq::<u32>::empty(),
    {
        Mesh3D::new()
    }
}

} // verus!
