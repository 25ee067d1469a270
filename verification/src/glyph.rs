//! From drawing commands to an outline.
//!
//! A font hands out a glyph's shape as a run of drawing commands in its own
//! design units. The extractor turns them into contours in em units: each
//! coordinate is multiplied by one over the font's units per em.

use vstd::prelude::*;
use crate::error::FontMeshError;
use crate::extrude::{all_panels, misfit, solid_fits, solid_indices, solid_normals, solid_vertices};
use crate::font::{
    advance_in_em, bounding_box_of, bounds_in_em, face_units_per_em, hor_advance_of,
    units_per_em_of,
};
use crate::linearize::{is_linearized_outline, linearize_outline};
use crate::triangulate::{is_triangulation, triangulate, triangulation};
use crate::types::{Contour, ContourPoint, Mesh2D, Mesh3D, Outline2D};
use crate::vecmath::{mul2, number, prod2, real_of, recip2, Point2D, Point3D, Real};

verus! {

/// The subdivision count used where none is asked for.
pub const DEFAULT_QUALITY: u8 = 20;

/// One drawing command, its points in the font's design units.
#[derive(Debug, Clone, Copy)]
pub enum PathCommand {
    /// Starts a new contour at the point.
    MoveTo(Point2D),
    /// A straight line to the point.
    LineTo(Point2D),
    /// A quadratic curve by a control point to an end point.
    QuadTo(Point2D, Point2D),
    /// A cubic curve by two control points to an end point.
    CurveTo(Point2D, Point2D, Point2D),
    /// Closes the contour.
    Close,
}

/// What an extractor holds: the points of the contours that are finished,
/// and of the contour in progress, if any.
pub struct Extraction {
    pub finished: Seq<Seq<ContourPoint>>,
    pub current: Option<Seq<ContourPoint>>,
}

/// The factor from design units to em units: one over the units per em.
pub open spec fn em_scale(units_per_em: u16) -> Real {
    recip2(real_of(units_per_em as u64))
}

/// A design-unit point in em units.
pub open spec fn scaled(p: Point2D, scale: Real) -> Point2D {
    prod2(p, scale)
}

/// A point on the curve at `p`.
pub open spec fn on(p: Point2D) -> ContourPoint {
    ContourPoint { point: p, on_curve: true }
}

/// A control point at `p`.
pub open spec fn off(p: Point2D) -> ContourPoint {
    ContourPoint { point: p, on_curve: false }
}

/// The state with `point` added to the contour in progress. Without a
/// contour in progress the point is dropped.
pub open spec fn with_point(state: Extraction, point: ContourPoint) -> Extraction {
    match state.current {
        Some(points) => Extraction { finished: state.finished, current: Some(points.push(point)) },
        None => state,
    }
}

/// The state with the contour in progress finished: it joins the finished
/// ones if it has a point, and is dropped if it has none.
pub open spec fn with_contour_finished(state: Extraction) -> Extraction {
    match state.current {
        Some(points) => if points.len() > 0 {
            Extraction { finished: state.finished.push(points), current: None }
        } else {
            Extraction { finished: state.finished, current: None }
        },
        None => state,
    }
}

/// The state after one command.
pub open spec fn after_command(state: Extraction, command: PathCommand, scale: Real) -> Extraction {
    match command {
        PathCommand::MoveTo(p) => Extraction {
            finished: with_contour_finished(state).finished,
            current: Some(seq![on(scaled(p, scale))]),
        },
        PathCommand::LineTo(p) => with_point(state, on(scaled(p, scale))),
        PathCommand::QuadTo(c, p) => with_point(
            with_point(state, off(scaled(c, scale))),
            on(scaled(p, scale)),
        ),
        PathCommand::CurveTo(c1, c2, p) => with_point(
            with_point(with_point(state, off(scaled(c1, scale))), off(scaled(c2, scale))),
            on(scaled(p, scale)),
        ),
        PathCommand::Close => with_contour_finished(state),
    }
}

/// The state after the first `upto` commands, from nothing.
pub open spec fn after_commands(commands: Seq<PathCommand>, scale: Real, upto: nat) -> Extraction
    decreases upto,
{
    if upto == 0 {
        Extraction { finished: Seq::empty(), current: None }
    } else {
        after_command(after_commands(commands, scale, (upto - 1) as nat), commands[upto - 1], scale)
    }
}

/// The points of each contour, in order.
pub open spec fn contour_points(contours: Seq<Contour>) -> Seq<Seq<ContourPoint>> {
    Seq::new(contours.len(), |c: int| contours[c].points@)
}

/// Builds an outline from drawing commands.
pub struct OutlineExtractor {
    outline: Outline2D,
    current_contour: Option<Contour>,
    scale: Real,
}

impl OutlineExtractor {
    /// What the extractor holds.
    pub closed spec fn view(&self) -> Extraction {
        Extraction {
            finished: contour_points(self.outline.contours@),
            current: match self.current_contour {
                Some(contour) => Some(contour.points@),
                None => None,
            },
        }
    }

    /// The factor by which every coordinate is multiplied.
    pub closed spec fn scale(&self) -> Real {
        self.scale
    }

    /// Every contour, finished or in progress, is closed.
    pub closed spec fn well_formed(&self) -> bool {
        &&& forall|c: int|
            0 <= c < self.outline.contours@.len() ==> (#[trigger] self.outline.contours@[c]).closed
        &&& match self.current_contour {
            Some(contour) => contour.closed,
            None => true,
        }
    }

    /// An extractor for a font of this many units per em, holding nothing.
    pub fn new(units_per_em: u16) -> (r: Self)
        ensures
            r.well_formed(),
            r.scale() == em_scale(units_per_em),
            r@ == (Extraction { finished: Seq::empty(), current: None }),
    {
        let r = OutlineExtractor {
            outline: Outline2D::new(),
            current_contour: None,
            scale: number(units_per_em as u64).recip(),
        };
        assert(r@.finished =~= Seq::<Seq<ContourPoint>>::empty());
        r
    }

    /// The design-unit point `p` in em units.
    pub fn point(&self, p: Point2D) -> (r: Point2D)
        ensures
            r == scaled(p, self.scale()),
    {
        mul2(p, self.scale)
    }

    /// Adds a point to the contour in progress, if there is one.
    pub fn push_point(&mut self, point: ContourPoint)
        requires
            old(self).well_formed(),
        ensures
            final(self).well_formed(),
            final(self).scale() == old(self).scale(),
            final(self)@ == with_point(old(self)@, point),
    {
        match self.current_contour.take() {
            Some(mut contour) => {
                contour.push(point);
                self.current_contour = Some(contour);
            },
            None => {},
        }
    }

    /// Finishes the contour in progress, if there is one: it is kept if it
    /// has a point.
    pub fn finish_contour(&mut self)
        requires
            old(self).well_formed(),
        ensures
            final(self).well_formed(),
            final(self).scale() == old(self).scale(),
            final(self)@ == with_contour_finished(old(self)@),
    {
        match self.current_contour.take() {
            Some(contour) => {
                if !contour.is_empty() {
                    self.outline.add_contour(contour);
                    assert(self@.finished =~= old(self)@.finished.push(contour.points@));
                }
            },
            None => {},
        }
    }

    /// Starts a new closed contour at `p`, after finishing the one in
    /// progress.
    pub fn move_to(&mut self, p: Point2D)
        requires
            old(self).well_formed(),
        ensures
            final(self).well_formed(),
            final(self).scale() == old(self).scale(),
            final(self)@ == after_command(old(self)@, PathCommand::MoveTo(p), old(self).scale()),
    {
        self.finish_contour();
        let mut contour = Contour::new(true);
        let pt = self.point(p);
        contour.push(ContourPoint::on_curve(pt));
        self.current_contour = Some(contour);
    }

    /// A straight line to `p`.
    pub fn line_to(&mut self, p: Point2D)
        requires
            old(self).well_formed(),
        ensures
            final(self).well_formed(),
            final(self).scale() == old(self).scale(),
            final(self)@ == after_command(old(self)@, PathCommand::LineTo(p), old(self).scale()),
    {
        let pt = self.point(p);
        self.push_point(ContourPoint::on_curve(pt));
    }

    /// A quadratic curve by the control point `c` to `p`.
    pub fn quad_to(&mut self, c: Point2D, p: Point2D)
        requires
            old(self).well_formed(),
        ensures
            final(self).well_formed(),
            final(self).scale() == old(self).scale(),
            final(self)@ == after_command(
                old(self)@,
                PathCommand::QuadTo(c, p),
                old(self).scale(),
            ),
    {
        let control = self.point(c);
        self.push_point(ContourPoint::off_curve(control));
        let end = self.point(p);
        self.push_point(ContourPoint::on_curve(end));
    }

    /// A cubic curve by the control points `c1` and `c2` to `p`. Both
    /// control points are kept as they are.
    pub fn curve_to(&mut self, c1: Point2D, c2: Point2D, p: Point2D)
        requires
            old(self).well_formed(),
        ensures
            final(self).well_formed(),
            final(self).scale() == old(self).scale(),
            final(self)@ == after_command(
                old(self)@,
                PathCommand::CurveTo(c1, c2, p),
                old(self).scale(),
            ),
    {
        let first = self.point(c1);
        self.push_point(ContourPoint::off_curve(first));
        let second = self.point(c2);
        self.push_point(ContourPoint::off_curve(second));
        let end = self.point(p);
        self.push_point(ContourPoint::on_curve(end));
    }

    /// Closes the contour in progress.
    pub fn close(&mut self)
        requires
            old(self).well_formed(),
        ensures
            final(self).well_formed(),
            final(self).scale() == old(self).scale(),
            final(self)@ == after_command(old(self)@, PathCommand::Close, old(self).scale()),
    {
        self.finish_contour();
    }

    /// Applies one command.
    pub fn apply(&mut self, command: PathCommand)
        requires
            old(self).well_formed(),
        ensures
            final(self).well_formed(),
            final(self).scale() == old(self).scale(),
            final(self)@ == after_command(old(self)@, command, old(self).scale()),
    {
        match command {
            PathCommand::MoveTo(p) => self.move_to(p),
            PathCommand::LineTo(p) => self.line_to(p),
            PathCommand::QuadTo(c, p) => self.quad_to(c, p),
            PathCommand::CurveTo(c1, c2, p) => self.curve_to(c1, c2, p),
            PathCommand::Close => self.close(),
        }
    }

    /// The outline of the finished contours, or `NoOutline` where there is
    /// none. A contour still in progress is not part of it.
    pub fn outline(self) -> (r: Result<Outline2D, FontMeshError>)
        requires
            self.well_formed(),
        ensures
            r is Ok <==> self@.finished.len() > 0,
            r is Err ==> r->Err_0 is NoOutline,
            r is Ok ==> is_extracted(r->Ok_0, self@.finished),
    {
        if self.outline.is_empty() {
            return Err(FontMeshError::NoOutline);
        }
        Ok(self.outline)
    }
}

/// Whether the outline has exactly these contours, all closed.
pub open spec fn is_extracted(outline: Outline2D, contours: Seq<Seq<ContourPoint>>) -> bool {
    &&& contour_points(outline.contours@) == contours
    &&& forall|c: int| 0 <= c < outline.contours@.len() ==> (#[trigger] outline.contours@[c]).closed
}

/// The outline that a run of drawing commands describes, in em units.
///
/// Every contour is closed. A contour that was started and never closed
/// is not part of the outline. Where no contour is finished, as for a
/// space, the result is `NoOutline`.
pub fn extract_outline(commands: &Vec<PathCommand>, units_per_em: u16) -> (r: Result<
    Outline2D,
    FontMeshError,
>)
    ensures
        r is Ok <==> after_commands(
            commands@,
            em_scale(units_per_em),
            commands@.len(),
        ).finished.len() > 0,
        r is Err ==> r->Err_0 is NoOutline,
        r is Ok ==> is_extracted(
            r->Ok_0,
            after_commands(commands@, em_scale(units_per_em), commands@.len()).finished,
        ),
{
    let mut extractor = OutlineExtractor::new(units_per_em);
    let mut i: usize = 0;
    while i < commands.len()
        invariant
            i <= commands@.len(),
            extractor.well_formed(),
            extractor.scale() == em_scale(units_per_em),
            extractor@ == after_commands(commands@, em_scale(units_per_em), i as nat),
        decreases commands@.len() - i,
    {
        extractor.apply(commands[i]);
        i += 1;
    }
    extractor.outline()
}

/// The outline of a glyph, from what the font drew for it: `NoOutline`
/// where the font drew nothing for the glyph, given as `None`, else the
/// outline of the commands.
pub fn drawn_outline(drawn: &Option<Vec<PathCommand>>, units_per_em: u16) -> (r: Result<
    Outline2D,
    FontMeshError,
>)
    ensures
        r is Ok <==> has_outline(*drawn, units_per_em),
        r is Err ==> r->Err_0 is NoOutline,
        r is Ok ==> is_extracted(
            r->Ok_0,
            after_commands(
                drawn->Some_0@,
                em_scale(units_per_em),
                drawn->Some_0@.len(),
            ).finished,
        ),
{
    match drawn {
        Some(commands) => extract_outline(commands, units_per_em),
        None => Err(FontMeshError::NoOutline),
    }
}

/// Whether what the font drew holds a finished contour.
pub open spec fn has_outline(drawn: Option<Vec<PathCommand>>, units_per_em: u16) -> bool {
    match drawn {
        Some(commands) => after_commands(
            commands@,
            em_scale(units_per_em),
            commands@.len(),
        ).finished.len() > 0,
        None => false,
    }
}

/// Whether `outline` is what extraction gives for what the font drew.
pub open spec fn is_outline_of(outline: Outline2D, drawn: Option<Vec<PathCommand>>, units_per_em: u16) -> bool {
    &&& has_outline(drawn, units_per_em)
    &&& is_extracted(
        outline,
        after_commands(drawn->Some_0@, em_scale(units_per_em), drawn->Some_0@.len()).finished,
    )
}

/// Whether a result is what the steps from drawing commands to a flat mesh
/// owe: `NoOutline` without an outline, else the triangulation of a
/// linearization of the outline.
pub open spec fn is_flat_mesh_of(
    r: Result<Mesh2D, FontMeshError>,
    drawn: Option<Vec<PathCommand>>,
    units_per_em: u16,
    subdivisions: u8,
) -> bool {
    if !has_outline(drawn, units_per_em) {
        r is Err && r->Err_0 is NoOutline
    } else {
        exists|raw: Outline2D, linear: Outline2D|
            #![trigger is_linearized_outline(raw, subdivisions, linear)]
            is_outline_of(raw, drawn, units_per_em) && is_linearized_outline(
                raw,
                subdivisions,
                linear,
            ) && is_triangulation(r, linear)
    }
}

/// Whether a result is what the steps from drawing commands to a solid owe:
/// as for the flat mesh, then the extrusion of the mesh along the
/// linearized outline.
pub open spec fn is_solid_mesh_of(
    r: Result<Mesh3D, FontMeshError>,
    drawn: Option<Vec<PathCommand>>,
    units_per_em: u16,
    subdivisions: u8,
    depth: Point3D,
) -> bool {
    if !has_outline(drawn, units_per_em) {
        r is Err && r->Err_0 is NoOutline
    } else {
        exists|raw: Outline2D, linear: Outline2D|
            #![trigger is_linearized_outline(raw, subdivisions, linear)]
            is_outline_of(raw, drawn, units_per_em) && is_linearized_outline(
                raw,
                subdivisions,
                linear,
            ) && (match triangulation(linear) {
                Ok((vertices, indices)) => if solid_fits(
                    vertices.len(),
                    indices,
                    linear,
                ) {
                    &&& r is Ok
                    &&& r->Ok_0.vertices@ == solid_vertices(
                        vertices,
                        all_panels(linear),
                        depth,
                    )
                    &&& r->Ok_0.normals@ == solid_normals(
                        vertices.len(),
                        all_panels(linear),
                    )
                    &&& r->Ok_0.indices@ == solid_indices(
                        indices,
                        vertices.len(),
                        all_panels(linear).len(),
                    )
                    &&& r->Ok_0.well_formed()
                } else {
                    r is Err && r->Err_0 is ExtrusionFailed && r->Err_0.detail()
                        == misfit(vertices.len(), linear)
                },
                Err(detail) => r is Err && r->Err_0 is TriangulationFailed && r->Err_0.detail()
                    == detail,
            })
    }
}

/// A glyph of a font: its character, its number in the font, and its
/// advance and bounds in em units.
pub struct Glyph<'a> {
    character: char,
    glyph_id: ttf_parser::GlyphId,
    face: &'a ttf_parser::Face<'a>,
    advance: Real,
    bounds: Option<(Point2D, Point2D)>,
}

impl<'a> Glyph<'a> {
    /// Whether this is the glyph `id` of `face`, for `character`, with the
    /// advance and bounds that the face gives it.
    pub closed spec fn describes(&self, face: ttf_parser::Face<'a>, id: u16, character: char) -> bool {
        &&& self.character == character
        &&& self.glyph_id.0 == id
        &&& *self.face == face
        &&& self.advance == advance_in_em(hor_advance_of(face, id), units_per_em_of(face))
        &&& self.bounds == bounds_in_em(bounding_box_of(face, id), units_per_em_of(face))
    }

    /// The units per em of the glyph's face.
    pub closed spec fn units_per_em_spec(&self) -> u16 {
        units_per_em_of(*self.face)
    }

    /// The character that the glyph stands for.
    pub closed spec fn character_spec(&self) -> char {
        self.character
    }

    /// The glyph's number in its font.
    pub closed spec fn glyph_id_spec(&self) -> ttf_parser::GlyphId {
        self.glyph_id
    }

    /// The glyph's advance in em units.
    pub closed spec fn advance_spec(&self) -> Real {
        self.advance
    }

    /// The glyph's bounds in em units.
    pub closed spec fn bounds_spec(&self) -> Option<(Point2D, Point2D)> {
        self.bounds
    }

    /// The glyph's face.
    pub closed spec fn face_spec(&self) -> ttf_parser::Face<'a> {
        *self.face
    }

    /// A glyph that describes a face's glyph has that face's units per
    /// em, and what the face gives for it.
    pub proof fn lemma_describes_face(&self, face: ttf_parser::Face<'a>, id: u16, character: char)
        requires
            self.describes(face, id, character),
        ensures
            self.units_per_em_spec() == units_per_em_of(face),
            self.face_spec() == face,
            self.character_spec() == character,
            self.glyph_id_spec().0 == id,
            self.advance_spec() == advance_in_em(hor_advance_of(face, id), units_per_em_of(face)),
            self.bounds_spec() == bounds_in_em(bounding_box_of(face, id), units_per_em_of(face)),
    {
    }

    pub(crate) fn new(
        character: char,
        glyph_id: ttf_parser::GlyphId,
        face: &'a ttf_parser::Face<'a>,
        advance: Real,
        bounds: Option<(Point2D, Point2D)>,
    ) -> (r: Self)
        requires
            advance == advance_in_em(hor_advance_of(*face, glyph_id.0), units_per_em_of(*face)),
            bounds == bounds_in_em(bounding_box_of(*face, glyph_id.0), units_per_em_of(*face)),
        ensures
            r.describes(*face, glyph_id.0, character),
    {
        Glyph { character, glyph_id, face, advance, bounds }
    }

    /// The character that the glyph stands for.
    pub fn character(&self) -> (r: char)
        ensures
            r == self.character_spec(),
    {
        self.character
    }

    /// The glyph's number in its font.
    pub fn glyph_id(&self) -> (r: ttf_parser::GlyphId)
        ensures
            r == self.glyph_id_spec(),
    {
        self.glyph_id
    }

    /// The glyph's face, from which its drawing commands are read.
    pub fn face(&self) -> (r: &'a ttf_parser::Face<'a>)
        ensures
            *r == self.face_spec(),
    {
        self.face
    }

    /// The horizontal advance in em units.
    pub fn advance(&self) -> (r: Real)
        ensures
            r == self.advance_spec(),
    {
        self.advance
    }

    /// The corner of least and the corner of greatest coordinates, in em
    /// units, or `None` for a glyph without a shape.
    pub fn bounds(&self) -> (r: Option<(Point2D, Point2D)>)
        ensures
            r == self.bounds_spec(),
    {
        self.bounds
    }

    /// A builder for meshes of this glyph at this number of subdivisions.
    pub fn with_subdivisions(&self, subdivisions: u8) -> (r: GlyphMeshBuilder<'_>)
        ensures
            r.subdivisions_spec() == subdivisions,
            r.units_per_em_spec() == self.units_per_em_spec(),
    {
        GlyphMeshBuilder { glyph: self, subdivisions }
    }

    /// The glyph's outline, from what its face drew for it.
    pub fn outline(&self, drawn: &Option<Vec<PathCommand>>) -> (r: Result<Outline2D, FontMeshError>)
        ensures
            r is Ok <==> has_outline(*drawn, self.units_per_em_spec()),
            r is Err ==> r->Err_0 is NoOutline,
            r is Ok ==> is_outline_of(r->Ok_0, *drawn, self.units_per_em_spec()),
    {
        drawn_outline(drawn, face_units_per_em(self.face))
    }

    /// The glyph's outline with its curves turned into points, at the
    /// default number of subdivisions.
    pub fn linearize(&self, drawn: &Option<Vec<PathCommand>>) -> (r: Result<
        Outline2D,
        FontMeshError,
    >)
        ensures
            r is Ok <==> has_outline(*drawn, self.units_per_em_spec()),
            r is Err ==> r->Err_0 is NoOutline,
            r is Ok ==> exists|raw: Outline2D|
                is_outline_of(raw, *drawn, self.units_per_em_spec())
                    && #[trigger] is_linearized_outline(raw, DEFAULT_QUALITY, r->Ok_0),
    {
        self.linearize_with(drawn, DEFAULT_QUALITY)
    }

    /// The glyph's outline with its curves turned into points.
    pub fn linearize_with(&self, drawn: &Option<Vec<PathCommand>>, subdivisions: u8) -> (r: Result<
        Outline2D,
        FontMeshError,
    >)
        ensures
            r is Ok <==> has_outline(*drawn, self.units_per_em_spec()),
            r is Err ==> r->Err_0 is NoOutline,
            r is Ok ==> exists|raw: Outline2D|
                is_outline_of(raw, *drawn, self.units_per_em_spec())
                    && #[trigger] is_linearized_outline(raw, subdivisions, r->Ok_0),
    {
        match self.outline(drawn) {
            Ok(outline) => {
                let r = linearize_outline(outline, subdivisions);
                assert(is_linearized_outline(outline, subdivisions, r->Ok_0));
                r
            },
            Err(e) => Err(e),
        }
    }

    /// The glyph as a flat mesh, at the default number of subdivisions.
    pub fn to_mesh_2d(&self, drawn: &Option<Vec<PathCommand>>) -> (r: Result<Mesh2D, FontMeshError>)
        ensures
            is_flat_mesh_of(r, *drawn, self.units_per_em_spec(), DEFAULT_QUALITY),
    {
        self.with_subdivisions(DEFAULT_QUALITY).to_mesh_2d(drawn)
    }

    /// The glyph as a solid of the given depth, at the default number of
    /// subdivisions.
    pub fn to_mesh_3d(&self, drawn: &Option<Vec<PathCommand>>, depth: Point3D) -> (r: Result<
        Mesh3D,
        FontMeshError,
    >)
        ensures
            is_solid_mesh_of(r, *drawn, self.units_per_em_spec(), DEFAULT_QUALITY, depth),
    {
        self.with_subdivisions(DEFAULT_QUALITY).to_mesh_3d(drawn, depth)
    }
}

/// Makes meshes of a glyph at a chosen number of subdivisions.
pub struct GlyphMeshBuilder<'a> {
    glyph: &'a Glyph<'a>,
    subdivisions: u8,
}

impl<'a> GlyphMeshBuilder<'a> {
    /// The number of subdivisions that the builder works at.
    pub closed spec fn subdivisions_spec(&self) -> u8 {
        self.subdivisions
    }

    /// The units per em of the glyph's face.
    pub closed spec fn units_per_em_spec(&self) -> u16 {
        self.glyph.units_per_em_spec()
    }

    /// The same builder at another number of subdivisions.
    pub fn with_subdivisions(self, subdivisions: u8) -> (r: Self)
        ensures
            r.subdivisions_spec() == subdivisions,
            r.units_per_em_spec() == self.units_per_em_spec(),
    {
        GlyphMeshBuilder { glyph: self.glyph, subdivisions }
    }

    /// The glyph as a flat mesh.
    pub fn to_mesh_2d(self, drawn: &Option<Vec<PathCommand>>) -> (r: Result<Mesh2D, FontMeshError>)
        ensures
            is_flat_mesh_of(r, *drawn, self.units_per_em_spec(), self.subdivisions_spec()),
    {
        match self.glyph.linearize_with(drawn, self.subdivisions) {
            Ok(outline) => triangulate(&outline),
            Err(e) => Err(e),
        }
    }

    /// The glyph as a solid of the given depth.
    pub fn to_mesh_3d(self, drawn: &Option<Vec<PathCommand>>, depth: Point3D) -> (r: Result<
        Mesh3D,
        FontMeshError,
    >)
        ensures
            is_solid_mesh_of(r, *drawn, self.units_per_em_spec(), self.subdivisions_spec(), depth),
    {
        match self.glyph.linearize_with(drawn, self.subdivisions) {
            Ok(outline) => outline.to_mesh_3d(depth),
            Err(e) => Err(e),
        }
    }
}

} // verus!
