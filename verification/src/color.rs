//! Colors for the painting interface.
//!
//! The painter consumes 8-bit RGBA; this core only carries colors through
//! and picks between a light and a dark variant.

use vstd::prelude::*;

verus! {

/// An 8-bit-per-channel RGBA color.
#[derive(Clone, Copy, Debug, PartialEq, Eq, Structural)]
pub struct Rgba {
    pub r: u8,
    pub g: u8,
    pub b: u8,
    pub a: u8,
}

impl Rgba {
    pub fn new(r: u8, g: u8, b: u8, a: u8) -> (c: Rgba)
        ensures
            c == (Rgba { r, g, b, a }),
    {
        Rgba { r, g, b, a }
    }
}

/// Either a single color, or a pair of colors corresponding to the light and
/// the dark scheme.
#[derive(Clone, Copy, Debug, PartialEq, Eq, Structural)]
pub enum GuiColor {
    Single(Rgba),
    Pair { light: Rgba, dark: Rgba },
}

impl GuiColor {
    /// The color this stands for under the given scheme.
    pub open spec fn spec_resolve(self, dark_mode: bool) -> Rgba {
        match self {
            GuiColor::Single(c) => c,
            GuiColor::Pair { light, dark } => if dark_mode {
                dark
            } else {
                light
            },
        }
    }

    /// Create a single color.
    pub fn single(color: Rgba) -> (c: GuiColor)
        ensures
            c == GuiColor::Single(color),
    {
        GuiColor::Single(color)
    }

    /// Create a light/dark scheme pair.
    pub fn pair(light: Rgba, dark: Rgba) -> (c: GuiColor)
        ensures
            c == (GuiColor::Pair { light, dark }),
    {
        GuiColor::Pair { light, dark }
    }

    /// Pick the concrete color for the current scheme.
    pub fn resolve(&self, dark_mode: bool) -> (c: Rgba)
        ensures
            c == self.spec_resolve(dark_mode),
    {
        match self {
            GuiColor::Single(c) => *c,
            GuiColor::Pair { light, dark } => if dark_mode {
                *dark
            } else {
                *light
            },
        }
    }
}

} // verus!
