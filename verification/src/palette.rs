//! The colours the puzzle paints with: a small fixed set of hues, each used
//! at an opacity counted in tenths.

use crate::attributes::VennColor;
use vstd::prelude::*;

verus! {

/// A hue of the puzzle's palette.
#[derive(Clone, Copy, Debug, PartialEq, Eq, Structural)]
pub enum Hue {
    Black,
    White,
    Gray,
    Red,
    Green,
    Blue,
    Yellow,
    Purple,
}

/// A hue at an opacity. The opacity counts tenths: 0 is invisible, 10 is
/// solid.
#[derive(Clone, Copy, Debug, PartialEq, Eq, Structural)]
pub struct Paint {
    pub hue: Hue,
    pub opacity: u8,
}

/// The opacity of a solid colour, in tenths.
pub const OPAQUE: u8 = 10;

impl Paint {
    /// The solid colour of a hue.
    pub open spec fn spec_solid(hue: Hue) -> Paint {
        Paint { hue, opacity: OPAQUE }
    }

    /// The solid colour of a hue.
    pub fn solid(hue: Hue) -> (paint: Paint)
        ensures
            paint == Self::spec_solid(hue),
    {
        Paint { hue, opacity: OPAQUE }
    }

    /// The same hue at another opacity.
    pub open spec fn spec_with_opacity(self, opacity: u8) -> Paint {
        Paint { hue: self.hue, opacity }
    }

    /// The same hue at another opacity.
    pub fn with_opacity(&self, opacity: u8) -> (paint: Paint)
        ensures
            paint == self.spec_with_opacity(opacity),
    {
        Paint { hue: self.hue, opacity }
    }
}

impl VennColor {
    /// The solid colour in which this attribute value is painted.
    pub open spec fn spec_to_color(self) -> Paint {
        match self {
            VennColor::Yellow => Paint::spec_solid(Hue::Yellow),
            VennColor::Blue => Paint::spec_solid(Hue::Blue),
            VennColor::Purple => Paint::spec_solid(Hue::Purple),
        }
    }

    /// The solid colour in which this attribute value is painted.
    pub fn to_color(&self) -> (paint: Paint)
        ensures
            paint == self.spec_to_color(),
    {
        match self {
            VennColor::Yellow => Paint::solid(Hue::Yellow),
            VennColor::Blue => Paint::solid(Hue::Blue),
            VennColor::Purple => Paint::solid(Hue::Purple),
        }
    }
}

} // verus!
