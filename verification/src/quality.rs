//! How finely curves are turned into points.

use vstd::prelude::*;
use crate::error::FontMeshError;

verus! {

/// A number of subdivisions, by name or by value. A curve that turns
/// through a full turn would get this many points.
#[derive(Debug, Clone, Copy, PartialEq, Eq, Structural)]
pub enum Quality {
    /// Ten subdivisions.
    Low,
    /// Twenty subdivisions.
    Normal,
    /// Fifty subdivisions.
    High,
    /// As many subdivisions as given.
    Custom(u8),
}

impl Quality {
    /// The number of subdivisions that the quality stands for.
    pub open spec fn subdivisions_spec(self) -> u8 {
        match self {
            Quality::Low => 10,
            Quality::Normal => 20,
            Quality::High => 50,
            Quality::Custom(n) => n,
        }
    }

    /// The number of subdivisions that the quality stands for.
    pub fn subdivisions(self) -> (n: u8)
        ensures
            n == self.subdivisions_spec(),
    {
        match self {
            Quality::Low => 10,
            Quality::Normal => 20,
            Quality::High => 50,
            Quality::Custom(n) => n,
        }
    }

    /// The quality of a given number of subdivisions, which must be
    /// positive: zero is `InvalidQuality`.
    pub fn custom(subdivisions: u8) -> (r: Result<Quality, FontMeshError>)
        ensures
            r == (if subdivisions == 0 {
                Err::<Quality, FontMeshError>(FontMeshError::InvalidQuality(subdivisions))
            } else {
                Ok(Quality::Custom(subdivisions))
            }),
    {
        if subdivisions == 0 {
            Err(FontMeshError::InvalidQuality(subdivisions))
        } else {
            Ok(Quality::Custom(subdivisions))
        }
    }
}

impl Default for Quality {
    fn default() -> (r: Self)
        ensures
            r == Quality::Normal,
    {
        Quality::Normal
    }
}

} // verus!
