use vstd::prelude::*;

verus! {

/// An RGBA color. Each channel is held in thousandths of full intensity
/// (0 = none, 1000 = full), so the fractional channel values used by the
/// editor's palette are represented exactly without floating point.
/// The rendering layer divides by 1000 when it builds its own color values.
#[derive(Clone, Copy, Debug, PartialEq, Eq, Structural)]
pub struct Color {
    pub r: u16,
    pub g: u16,
    pub b: u16,
    pub a: u16,
}

/// Every channel is within the unit range.
pub open spec fn color_wf(c: Color) -> bool {
    c.r <= 1000 && c.g <= 1000 && c.b <= 1000 && c.a <= 1000
}

/// Opaque black.
pub open spec fn spec_black() -> Color {
    Color { r: 0, g: 0, b: 0, a: 1000 }
}

/// Opaque white.
pub open spec fn spec_white() -> Color {
    Color { r: 1000, g: 1000, b: 1000, a: 1000 }
}

/// Opaque red.
pub open spec fn spec_red() -> Color {
    Color { r: 1000, g: 0, b: 0, a: 1000 }
}

impl Color {
    /// A color from channel values in thousandths.
    pub fn new(r: u16, g: u16, b: u16, a: u16) -> (c: Color)
        requires
            r <= 1000,
            g <= 1000,
            b <= 1000,
            a <= 1000,
        ensures
            c == (Color { r, g, b, a }),
            color_wf(c),
    {
        Color { r, g, b, a }
    }

    /// Opaque black.
    pub fn black() -> (c: Color)
        ensures
            c == spec_black(),
            color_wf(c),
    {
        Color { r: 0, g: 0, b: 0, a: 1000 }
    }

    /// Opaque white.
    pub fn white() -> (c: Color)
        ensures
            c == spec_white(),
            color_wf(c),
    {
        Color { r: 1000, g: 1000, b: 1000, a: 1000 }
    }

    /// Opaque red.
    pub fn red() -> (c: Color)
        ensures
            c == spec_red(),
            color_wf(c),
    {
        Color { r: 1000, g: 0, b: 0, a: 1000 }
    }
}

} // verus!
