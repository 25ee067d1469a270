//! A font face, as far as meshes need it.
//!
//! Parsing and glyph lookup are ttf-parser's. What it reports in the
//! font's design units is turned into em units here.

use vstd::prelude::*;
use crate::error::{push_str, FontMeshError};
use crate::glyph::{is_flat_mesh_of, is_solid_mesh_of, Glyph, PathCommand, DEFAULT_QUALITY};
use crate::types::{Mesh2D, Mesh3D};
use crate::vecmath::{
    div2, mul2, number, point, point_of, prod2, quot2, real_of, recip2, Point2D, Point3D, Real,
};

verus! {

/// `ttf_parser::Face`: a parsed face over borrowed font data, opaque here.
#[verifier::external_type_specification]
#[verifier::external_body]
pub struct ExFace<'a>(ttf_parser::Face<'a>);


/// `ttf_parser::GlyphId`: a glyph's number, as a `u16` in its one field.
#[verifier::external_type_specification]
pub struct ExGlyphId(ttf_parser::GlyphId);

/// The error with which ttf-parser rejects these bytes as a font, taking
/// its first face, or `None` where it accepts them.
pub uninterp spec fn face_parse_error(data: Seq<u8>) -> Option<ttf_parser::FaceParsingError>;

/// The text of a parsing error, as its `Debug` form gives it.
pub uninterp spec fn parse_error_debug_text(error: ttf_parser::FaceParsingError) -> Seq<char>;

/// Whether ttf-parser accepts these bytes as a font.
pub open spec fn face_parses(data: Seq<u8>) -> bool {
    face_parse_error(data) is None
}

/// The glyph that the face maps the character to, if any.
pub uninterp spec fn glyph_index_of(face: ttf_parser::Face<'_>, c: char) -> Option<u16>;

/// The glyph's horizontal advance in design units, if the face gives one.
pub uninterp spec fn hor_advance_of(face: ttf_parser::Face<'_>, glyph: u16) -> Option<u16>;

/// The glyph's bounding box in design units, if it has one: least x,
/// least y, greatest x, greatest y.
pub uninterp spec fn bounding_box_of(face: ttf_parser::Face<'_>, glyph: u16) -> Option<
    (i16, i16, i16, i16),
>;

/// The face's units per em.
pub uninterp spec fn units_per_em_of(face: ttf_parser::Face<'_>) -> u16;

/// The face's ascender in design units.
pub uninterp spec fn ascender_of(face: ttf_parser::Face<'_>) -> i16;

/// The face's descender in design units.
pub uninterp spec fn descender_of(face: ttf_parser::Face<'_>) -> i16;

/// The face's line gap in design units.
pub uninterp spec fn line_gap_of(face: ttf_parser::Face<'_>) -> i16;

/// `ttf_parser::Face::parse` on the first face of the data.
#[verifier::external_body]
fn parse_face<'a>(data: &'a [u8]) -> (r: Result<ttf_parser::Face<'a>, ttf_parser::FaceParsingError>)
    ensures
        face_parse_error(data@) == (match r {
            Ok(_) => None::<ttf_parser::FaceParsingError>,
            Err(error) => Some(error),
        }),
{
    ttf_parser::Face::parse(data, 0)
}

/// The text of a parsing error, as its `Debug` form gives it.
#[verifier::external_body]
fn describe_parse_error(error: &ttf_parser::FaceParsingError) -> (text: String)
    ensures
        text@ == parse_error_debug_text(*error),
{
    format!("{:?}", error)
}

/// `ttf_parser::Face::glyph_index`.
#[verifier::external_body]
fn glyph_index(face: &ttf_parser::Face<'_>, c: char) -> (r: Option<ttf_parser::GlyphId>)
    ensures
        match r {
            Some(id) => glyph_index_of(*face, c) == Some(id.0),
            None => glyph_index_of(*face, c) is None,
        },
{
    face.glyph_index(c)
}

/// `ttf_parser::Face::glyph_hor_advance`.
#[verifier::external_body]
fn glyph_hor_advance(face: &ttf_parser::Face<'_>, glyph_id: ttf_parser::GlyphId) -> (r: Option<u16>)
    ensures
        r == hor_advance_of(*face, glyph_id.0),
{
    face.glyph_hor_advance(glyph_id)
}

/// `ttf_parser::Face::glyph_bounding_box`, the box as its four numbers.
#[verifier::external_body]
fn glyph_bounding_box(face: &ttf_parser::Face<'_>, glyph_id: ttf_parser::GlyphId) -> (r: Option<
    (i16, i16, i16, i16),
>)
    ensures
        r == bounding_box_of(*face, glyph_id.0),
{
    face.glyph_bounding_box(glyph_id).map(|b| (b.x_min, b.y_min, b.x_max, b.y_max))
}

/// `ttf_parser::Face::units_per_em`.
#[verifier::external_body]
pub(crate) fn face_units_per_em(face: &ttf_parser::Face<'_>) -> (r: u16)
    ensures
        r == units_per_em_of(*face),
{
    face.units_per_em()
}

/// `ttf_parser::Face::ascender`.
#[verifier::external_body]
fn face_ascender(face: &ttf_parser::Face<'_>) -> (r: i16)
    ensures
        r == ascender_of(*face),
{
    face.ascender()
}

/// `ttf_parser::Face::descender`.
#[verifier::external_body]
fn face_descender(face: &ttf_parser::Face<'_>) -> (r: i16)
    ensures
        r == descender_of(*face),
{
    face.descender()
}

/// `ttf_parser::Face::line_gap`.
#[verifier::external_body]
fn face_line_gap(face: &ttf_parser::Face<'_>) -> (r: i16)
    ensures
        r == line_gap_of(*face),
{
    face.line_gap()
}

/// A length of `units` design units, in em units.
pub open spec fn in_em(units: i16, units_per_em: u16) -> Real {
    quot2(point_of(units, units), real_of(units_per_em as u64))
}

/// A glyph's advance in em units: its advance in design units, or zero
/// where the face gives none, over the units per em.
pub open spec fn advance_in_em(advance: Option<u16>, units_per_em: u16) -> Real {
    let units = match advance {
        Some(a) => a,
        None => 0u16,
    };
    quot2(real_of(units as u64), real_of(units_per_em as u64))
}

/// A glyph's bounds in em units: the corner of least and the corner of
/// greatest coordinates, each times one over the units per em.
pub open spec fn bounds_in_em(bounding_box: Option<(i16, i16, i16, i16)>, units_per_em: u16) -> Option<
    (Point2D, Point2D),
> {
    match bounding_box {
        Some(b) => {
            let scale = recip2(real_of(units_per_em as u64));
            Some((prod2(point_of(b.0, b.1), scale), prod2(point_of(b.2, b.3), scale)))
        },
        None => None,
    }
}

/// What a glyph lookup gives: the glyph found, or `GlyphNotFound` with the
/// character.
pub fn found_glyph(found: Option<ttf_parser::GlyphId>, c: char) -> (r: Result<
    ttf_parser::GlyphId,
    FontMeshError,
>)
    ensures
        r == (match found {
            Some(id) => Ok::<ttf_parser::GlyphId, FontMeshError>(id),
            None => Err(FontMeshError::GlyphNotFound(c)),
        }),
{
    match found {
        Some(id) => Ok(id),
        None => Err(FontMeshError::GlyphNotFound(c)),
    }
}

/// A glyph's advance and bounds in em units, from what the face reports in
/// design units.
pub fn glyph_metrics(
    advance: Option<u16>,
    bounding_box: Option<(i16, i16, i16, i16)>,
    units_per_em: u16,
) -> (r: (Real, Option<(Point2D, Point2D)>))
    ensures
        r.0 == advance_in_em(advance, units_per_em),
        r.1 == bounds_in_em(bounding_box, units_per_em),
{
    let h_metrics = match advance {
        Some(a) => a,
        None => 0,
    };
    let advance = div2(number(h_metrics as u64), number(units_per_em as u64));
    let bounds = match bounding_box {
        Some(b) => {
            let scale = number(units_per_em as u64).recip();
            Some((mul2(point(b.0, b.1), scale), mul2(point(b.2, b.3), scale)))
        },
        None => None,
    };
    (advance, bounds)
}

/// A parsed font face.
pub struct Font<'a> {
    face: ttf_parser::Face<'a>,
}

impl<'a> Font<'a> {
    /// The face that ttf-parser made of the data.
    pub closed spec fn face_spec(&self) -> ttf_parser::Face<'a> {
        self.face
    }

    /// Parses the first face of a font. Fails with `ParseError` where
    /// ttf-parser does not accept the data.
    pub fn from_bytes(data: &'a [u8]) -> (r: Result<Font<'a>, FontMeshError>)
        ensures
            r is Ok <==> face_parses(data@),
            r is Err ==> r->Err_0 is ParseError && r->Err_0.detail() == "Failed to parse font: "@
                + parse_error_debug_text(face_parse_error(data@)->Some_0),
    {
        match parse_face(data) {
            Ok(face) => Ok(Font { face }),
            Err(e) => {
                let mut text = "Failed to parse font: ".to_owned();
                let detail = describe_parse_error(&e);
                push_str(&mut text, detail.as_str());
                Err(FontMeshError::ParseError(text))
            },
        }
    }

    /// The glyph for a character, or `GlyphNotFound` where the face maps
    /// the character to none.
    pub fn glyph_by_char(&self, c: char) -> (r: Result<Glyph<'_>, FontMeshError>)
        ensures
            match glyph_index_of(self.face_spec(), c) {
                Some(id) => r is Ok && r->Ok_0.describes(self.face_spec(), id, c),
                None => r == Err::<Glyph<'_>, FontMeshError>(FontMeshError::GlyphNotFound(c)),
            },
    {
        match found_glyph(glyph_index(&self.face, c), c) {
            Ok(glyph_id) => Ok(self.glyph_by_id(glyph_id, c)),
            Err(e) => Err(e),
        }
    }

    /// The glyph of this number, with its advance and bounds in em units.
    /// `character` is kept with it and is not checked against the face.
    pub fn glyph_by_id(&self, glyph_id: ttf_parser::GlyphId, character: char) -> (r: Glyph<'_>)
        ensures
            r.describes(self.face_spec(), glyph_id.0, character),
    {
        let units_per_em = face_units_per_em(&self.face);
        let (advance, bounds) = glyph_metrics(
            glyph_hor_advance(&self.face, glyph_id),
            glyph_bounding_box(&self.face, glyph_id),
            units_per_em,
        );
        Glyph::new(character, glyph_id, &self.face, advance, bounds)
    }

    /// The face itself, for what this library does not offer.
    pub fn face(&self) -> (r: &ttf_parser::Face<'a>)
        ensures
            *r == self.face_spec(),
    {
        &self.face
    }

    /// The face's units per em.
    pub fn units_per_em(&self) -> (r: u16)
        ensures
            r == units_per_em_of(self.face_spec()),
    {
        face_units_per_em(&self.face)
    }

    /// The face's ascender in em units.
    pub fn ascender(&self) -> (r: Real)
        ensures
            r == in_em(ascender_of(self.face_spec()), units_per_em_of(self.face_spec())),
    {
        let a = face_ascender(&self.face);
        div2(point(a, a), number(face_units_per_em(&self.face) as u64))
    }

    /// The face's descender in em units.
    pub fn descender(&self) -> (r: Real)
        ensures
            r == in_em(descender_of(self.face_spec()), units_per_em_of(self.face_spec())),
    {
        let d = face_descender(&self.face);
        div2(point(d, d), number(face_units_per_em(&self.face) as u64))
    }

    /// The face's line gap in em units.
    pub fn line_gap(&self) -> (r: Real)
        ensures
            r == in_em(line_gap_of(self.face_spec()), units_per_em_of(self.face_spec())),
    {
        let g = face_line_gap(&self.face);
        div2(point(g, g), number(face_units_per_em(&self.face) as u64))
    }

    /// The glyph of a character as a flat mesh, at the default number of
    /// subdivisions, from what the face drew for the glyph.
    pub fn glyph_to_mesh_2d(&self, character: char, drawn: &Option<Vec<PathCommand>>) -> (r: Result<
        Mesh2D,
        FontMeshError,
    >)
        ensures
            match glyph_index_of(self.face_spec(), character) {
                Some(id) => is_flat_mesh_of(
                    r,
                    *drawn,
                    units_per_em_of(self.face_spec()),
                    DEFAULT_QUALITY,
                ),
                None => r == Err::<Mesh2D, FontMeshError>(FontMeshError::GlyphNotFound(character)),
            },
    {
        match self.glyph_by_char(character) {
            Ok(glyph) => {
                proof {
                    glyph.lemma_describes_face(
                        self.face_spec(),
                        glyph_index_of(self.face_spec(), character)->Some_0,
                        character,
                    );
                }
                glyph.to_mesh_2d(drawn)
            },
            Err(e) => Err(e),
        }
    }

    /// The glyph of a character as a solid of the given depth, at the
    /// default number of subdivisions, from what the face drew for the
    /// glyph.
    pub fn glyph_to_mesh_3d(
        &self,
        character: char,
        drawn: &Option<Vec<PathCommand>>,
        depth: Point3D,
    ) -> (r: Result<Mesh3D, FontMeshError>)
        ensures
            match glyph_index_of(self.face_spec(), character) {
                Some(id) => is_solid_mesh_of(
                    r,
                    *drawn,
                    units_per_em_of(self.face_spec()),
                    DEFAULT_QUALITY,
                    depth,
                ),
                None => r == Err::<Mesh3D, FontMeshError>(FontMeshError::GlyphNotFound(character)),
            },
    {
        match self.glyph_by_char(character) {
            Ok(glyph) => {
                proof {
                    glyph.lemma_describes_face(
                        self.face_spec(),
                        glyph_index_of(self.face_spec(), character)->Some_0,
                        character,
                    );
                }
                glyph.to_mesh_3d(drawn, depth)
            },
            Err(e) => Err(e),
        }
    }
}

} // verus!
