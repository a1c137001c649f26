//! Colors and appearances, as plain numbers for whatever paints them.

use vstd::prelude::*;

verus! {

/// A color: red, green, blue and opacity, each in hundredths, 0 to 100.
#[derive(Clone, Copy, Debug, PartialEq, Eq, Structural)]
pub struct Rgba {
    pub r: u8,
    pub g: u8,
    pub b: u8,
    pub a: u8,
}

/// An opaque color from hundredths of red, green and blue.
pub open spec fn opaque(r: u8, g: u8, b: u8) -> Rgba {
    Rgba { r, g, b, a: 100 }
}

/// The color through which everything behind it shows.
pub open spec fn transparent() -> Rgba {
    Rgba { r: 0, g: 0, b: 0, a: 0 }
}

/// How a cell is shown: as any other, or as one that differs.
#[derive(Clone, Copy, Debug, PartialEq, Eq, Structural)]
pub enum ColorClass {
    Normal,
    Highlighted,
}

/// The colors of the text, by what they are used for.
#[derive(Clone, Copy, Debug, PartialEq, Eq, Structural)]
pub struct Palette {
    /// Offsets at the left and column numbers at the top.
    pub label: Rgba,
    /// Cells that are the same in both files.
    pub normal: Rgba,
    /// Cells that differ.
    pub highlighted: Rgba,
}

impl Palette {
    /// The cell color that belongs to `class`.
    pub open spec fn spec_cell_color(self, class: ColorClass) -> Rgba {
        match class {
            ColorClass::Normal => self.normal,
            ColorClass::Highlighted => self.highlighted,
        }
    }

    /// The colors of the dark theme: grey labels, pale cells, red differences.
    pub fn standard() -> (palette: Palette)
        ensures
            palette == (Palette {
                label: opaque(69, 71, 72),
                normal: opaque(94, 93, 91),
                highlighted: opaque(95, 11, 9),
            }),
    {
        Palette {
            label: Rgba { r: 69, g: 71, b: 72, a: 100 },
            normal: Rgba { r: 94, g: 93, b: 91, a: 100 },
            highlighted: Rgba { r: 95, g: 11, b: 9, a: 100 },
        }
    }

    /// The cell color that belongs to `class`.
    #[verifier::when_used_as_spec(spec_cell_color)]
    pub fn cell_color(self, class: ColorClass) -> (color: Rgba)
        ensures
            color == self.spec_cell_color(class),
    {
        match class {
            ColorClass::Normal => self.normal,
            ColorClass::Highlighted => self.highlighted,
        }
    }
}

/// The line around a shape: its color, its width and the radius of its
/// corners, both in pixels.
#[derive(Clone, Copy, Debug, PartialEq, Eq, Structural)]
pub struct Border {
    pub color: Rgba,
    pub width: u32,
    pub radius: u32,
}

/// How a button is painted.
#[derive(Clone, Copy, Debug, PartialEq, Eq, Structural)]
pub struct ButtonAppearance {
    pub background: Option<Rgba>,
    pub border: Border,
    pub text_color: Rgba,
}

/// How a container is painted; without a text color it leaves the text as it
/// finds it.
#[derive(Clone, Copy, Debug, PartialEq, Eq, Structural)]
pub struct ContainerAppearance {
    pub background: Option<Rgba>,
    pub border: Border,
    pub text_color: Option<Rgba>,
}

} // verus!
