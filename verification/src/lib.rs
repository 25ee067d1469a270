//! Triangle meshes from glyph outlines.
//!
//! A glyph's outline is taken from the drawing commands of its font,
//! its curves are turned into points, the polylines are triangulated under
//! the even-odd rule, and the flat mesh is extruded into a solid with a
//! normal at every vertex.
//!
//! Coordinates are glam vectors. All arithmetic on them is glam's, behind
//! the contracts of [`vecmath`]; what is proved here is which operations
//! make up each result, and everything about counts, order and indices.

pub mod error;
pub mod extrude;
pub mod font;
pub mod glyph;
pub mod linearize;
pub mod quality;
pub mod smooth;
pub mod triangulate;
pub mod types;
pub mod vecmath;

pub use error::FontMeshError;
pub use extrude::{extrude, extrude_into};
pub use font::Font;
pub use glyph::{extract_outline, Glyph, GlyphMeshBuilder, PathCommand};
pub use linearize::linearize_outline;
pub use quality::Quality;
pub use smooth::compute_smooth_normals;
pub use triangulate::{triangulate, triangulate_into};
pub use ttf_parser::GlyphId;
pub use types::{Contour, ContourPoint, Mesh2D, Mesh3D, Outline2D};
pub use vecmath::{Point2D, Point3D, Real};
