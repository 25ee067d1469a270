//! What can go wrong between a font and a mesh.

use vstd::prelude::*;

verus! {

/// `ttf_parser::FaceParsingError`, opaque here.
#[verifier::external_type_specification]
#[verifier::external_body]
pub struct ExFaceParsingError(ttf_parser::FaceParsingError);

/// The ways in which turning a glyph into a mesh can fail.
#[derive(Debug, Clone, PartialEq)]
pub enum FontMeshError {
    /// The font data could not be parsed.
    ParseError(String),
    /// The font has no glyph for this character.
    GlyphNotFound(char),
    /// The glyph's outline could not be read.
    OutlineExtractionFailed(String),
    /// The outline's curves could not be flattened.
    LinearizationFailed(String),
    /// The outline could not be triangulated.
    TriangulationFailed(String),
    /// The mesh could not be extruded.
    ExtrusionFailed(String),
    /// The subdivision count is out of range.
    InvalidQuality(u8),
    /// The glyph has no outline, as a space has none.
    NoOutline,
}

/// The text of a parsing error, as its `Display` form gives it.
pub uninterp spec fn parse_error_text(error: ttf_parser::FaceParsingError) -> Seq<char>;

/// `ToString::to_string` on a parsing error.
#[verifier::external_body]
fn parse_error_to_string(error: &ttf_parser::FaceParsingError) -> (text: String)
    ensures
        text@ == parse_error_text(*error),
{
    error.to_string()
}

/// `String::push_str`: appends the slice.
#[verifier::external_body]
pub(crate) fn push_str(text: &mut String, tail: &str)
    ensures
        final(text)@ == old(text)@ + tail@,
{
    text.push_str(tail);
}

/// `String::push`: appends the character.
#[verifier::external_body]
fn push_char(text: &mut String, c: char)
    ensures
        final(text)@ == old(text)@.push(c),
{
    text.push(c);
}

/// The character of a decimal digit.
pub open spec fn digit(d: int) -> char {
    if d == 0 {
        '0'
    } else if d == 1 {
        '1'
    } else if d == 2 {
        '2'
    } else if d == 3 {
        '3'
    } else if d == 4 {
        '4'
    } else if d == 5 {
        '5'
    } else if d == 6 {
        '6'
    } else if d == 7 {
        '7'
    } else if d == 8 {
        '8'
    } else {
        '9'
    }
}

/// A number in decimal, without leading zeros.
pub open spec fn decimal(n: u8) -> Seq<char> {
    if n >= 100 {
        seq![digit(n as int / 100), digit(n as int / 10 % 10), digit(n as int % 10)]
    } else if n >= 10 {
        seq![digit(n as int / 10), digit(n as int % 10)]
    } else {
        seq![digit(n as int)]
    }
}

fn digit_char(d: u8) -> (c: char)
    requires
        d < 10,
    ensures
        c == digit(d as int),
{
    if d == 0 {
        '0'
    } else if d == 1 {
        '1'
    } else if d == 2 {
        '2'
    } else if d == 3 {
        '3'
    } else if d == 4 {
        '4'
    } else if d == 5 {
        '5'
    } else if d == 6 {
        '6'
    } else if d == 7 {
        '7'
    } else if d == 8 {
        '8'
    } else {
        '9'
    }
}

fn push_decimal(text: &mut String, n: u8)
    ensures
        final(text)@ == old(text)@ + decimal(n),
{
    if n >= 100 {
        push_char(text, digit_char(n / 100));
    }
    if n >= 10 {
        push_char(text, digit_char(n / 10 % 10));
    }
    push_char(text, digit_char(n % 10));
    assert(text@ =~= old(text)@ + decimal(n));
}

impl FontMeshError {
    /// The detail that the error carries in words, empty where it carries
    /// none.
    pub open spec fn detail(self) -> Seq<char> {
        match self {
            FontMeshError::ParseError(msg) => msg@,
            FontMeshError::OutlineExtractionFailed(msg) => msg@,
            FontMeshError::LinearizationFailed(msg) => msg@,
            FontMeshError::TriangulationFailed(msg) => msg@,
            FontMeshError::ExtrusionFailed(msg) => msg@,
            _ => Seq::empty(),
        }
    }

    /// The error in words.
    pub open spec fn message_text(self) -> Seq<char> {
        match self {
            FontMeshError::ParseError(msg) => "Font parse error: "@ + msg@,
            FontMeshError::GlyphNotFound(c) => "Glyph not found for character: '"@.push(c).push(
                '\'',
            ),
            FontMeshError::OutlineExtractionFailed(msg) => "Outline extraction failed: "@ + msg@,
            FontMeshError::LinearizationFailed(msg) => "Linearization failed: "@ + msg@,
            FontMeshError::TriangulationFailed(msg) => "Triangulation failed: "@ + msg@,
            FontMeshError::ExtrusionFailed(msg) => "Extrusion failed: "@ + msg@,
            FontMeshError::InvalidQuality(q) => "Invalid quality parameter: "@ + decimal(q),
            FontMeshError::NoOutline => "Glyph has no outline"@,
        }
    }

    /// The error in words: what went wrong, then the detail that the error
    /// carries.
    pub fn message(&self) -> (text: String)
        ensures
            text@ == self.message_text(),
    {
        match self {
            FontMeshError::ParseError(msg) => {
                let mut text = "Font parse error: ".to_owned();
                push_str(&mut text, msg.as_str());
                text
            },
            FontMeshError::GlyphNotFound(c) => {
                let mut text = "Glyph not found for character: '".to_owned();
                push_char(&mut text, *c);
                push_char(&mut text, '\'');
                text
            },
            FontMeshError::OutlineExtractionFailed(msg) => {
                let mut text = "Outline extraction failed: ".to_owned();
                push_str(&mut text, msg.as_str());
                text
            },
            FontMeshError::LinearizationFailed(msg) => {
                let mut text = "Linearization failed: ".to_owned();
                push_str(&mut text, msg.as_str());
                text
            },
            FontMeshError::TriangulationFailed(msg) => {
                let mut text = "Triangulation failed: ".to_owned();
                push_str(&mut text, msg.as_str());
                text
            },
            FontMeshError::ExtrusionFailed(msg) => {
                let mut text = "Extrusion failed: ".to_owned();
                push_str(&mut text, msg.as_str());
                text
            },
            FontMeshError::InvalidQuality(q) => {
                let mut text = "Invalid quality parameter: ".to_owned();
                push_decimal(&mut text, *q);
                text
            },
            FontMeshError::NoOutline => "Glyph has no outline".to_owned(),
        }
    }
}

/// A parsing error of ttf-parser as a `ParseError`, with its text.
pub fn from_parse_error(err: ttf_parser::FaceParsingError) -> (r: FontMeshError)
    ensures
        r is ParseError,
        r->ParseError_0@ == "ttf_parser error: "@ + parse_error_text(err),
{
    let mut text = "ttf_parser error: ".to_owned();
    let detail = parse_error_to_string(&err);
    push_str(&mut text, detail.as_str());
    FontMeshError::ParseError(text)
}

impl From<ttf_parser::FaceParsingError> for FontMeshError {
    /// As `from_parse_error`.
    fn from(err: ttf_parser::FaceParsingError) -> (r: Self) {
        from_parse_error(err)
    }
}

impl vstd::std_specs::convert::FromSpecImpl<ttf_parser::FaceParsingError> for FontMeshError {
    /// The result holds a string, which a contract can only speak of by
    /// its text: `from_parse_error` does.
    open spec fn obeys_from_spec() -> bool {
        false
    }

    open spec fn from_spec(err: ttf_parser::FaceParsingError) -> Self {
        arbitrary()
    }
}

} // verus!
