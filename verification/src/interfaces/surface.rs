//! What is handed to the host for drawing.

use vstd::prelude::*;

verus! {

/// A flag of a font.
#[derive(Debug, Clone, Copy, PartialEq, Eq, Structural)]
pub enum EFontFlags {
    FontflagNone,
    FontflagItalic,
    FontflagUnderline,
    FontflagStrikeout,
    FontflagSymbol,
    FontflagAntialias,
    FontflagGaussianblur,
    FontflagRotary,
    FontflagDropshadow,
    FontflagAdditive,
    FontflagOutline,
    FontflagCustom,
    FontflagBitmap,
}

impl EFontFlags {
    /// The bit that stands for this flag in the flags of a font.
    pub open spec fn spec_number(&self) -> i32 {
        match self {
            EFontFlags::FontflagNone => 0x000i32,
            EFontFlags::FontflagItalic => 0x001,
            EFontFlags::FontflagUnderline => 0x002,
            EFontFlags::FontflagStrikeout => 0x004,
            EFontFlags::FontflagSymbol => 0x008,
            EFontFlags::FontflagAntialias => 0x010,
            EFontFlags::FontflagGaussianblur => 0x020,
            EFontFlags::FontflagRotary => 0x040,
            EFontFlags::FontflagDropshadow => 0x080,
            EFontFlags::FontflagAdditive => 0x100,
            EFontFlags::FontflagOutline => 0x200,
            EFontFlags::FontflagCustom => 0x400,
            EFontFlags::FontflagBitmap => 0x800,
        }
    }

    /// The bit that stands for this flag in the flags of a font.
    #[verifier::when_used_as_spec(spec_number)]
    pub fn number(&self) -> (n: i32)
        ensures
            n == self.spec_number(),
    {
        match self {
            EFontFlags::FontflagNone => 0x000,
            EFontFlags::FontflagItalic => 0x001,
            EFontFlags::FontflagUnderline => 0x002,
            EFontFlags::FontflagStrikeout => 0x004,
            EFontFlags::FontflagSymbol => 0x008,
            EFontFlags::FontflagAntialias => 0x010,
            EFontFlags::FontflagGaussianblur => 0x020,
            EFontFlags::FontflagRotary => 0x040,
            EFontFlags::FontflagDropshadow => 0x080,
            EFontFlags::FontflagAdditive => 0x100,
            EFontFlags::FontflagOutline => 0x200,
            EFontFlags::FontflagCustom => 0x400,
            EFontFlags::FontflagBitmap => 0x800,
        }
    }
}

/// The direction in which a gradient runs.
#[derive(Debug, Clone, Copy, PartialEq, Eq, Structural)]
pub enum GradientType {
    GradientHorizontal,
    GradientVertical,
}

/// A colour: red, green, blue and opacity, each from 0 to 255 where the
/// host is to show it.
#[derive(Debug, Clone, Copy, PartialEq, Eq, Structural)]
pub struct Color {
    pub r: i32,
    pub g: i32,
    pub b: i32,
    pub a: i32,
}

impl Color {
    /// An opaque colour.
    pub fn new_rgb(r: i32, g: i32, b: i32) -> (color: Self)
        ensures
            color == (Color { r, g, b, a: 255 }),
    {
        Self::new_rgba(r, g, b, 255)
    }

    /// A colour with the opacity `a`.
    pub fn new_rgba(r: i32, g: i32, b: i32, a: i32) -> (color: Self)
        ensures
            color == (Color { r, g, b, a }),
    {
        Self { r, g, b, a }
    }
}

/// The corners of a rectangle.
#[derive(Debug, Clone, Copy, PartialEq, Eq, Structural)]
pub struct Corners {
    pub x0: i32,
    pub y0: i32,
    pub x1: i32,
    pub y1: i32,
}

/// The opacity at which a fade starts, and the one at which it ends.
#[derive(Debug, Clone, Copy, PartialEq, Eq, Structural)]
pub struct Alphas {
    pub from: u32,
    pub to: u32,
}

/// What is drawn for a rectangle that runs from one colour to another: a
/// filled rectangle in the blend of the two, then the first colour fading
/// out over it, then the second colour fading in.
#[derive(Debug, Clone, Copy, PartialEq, Eq, Structural)]
pub struct FadePlan {
    /// The filled rectangle.
    pub fill: Corners,
    /// The rectangle of the two fades.
    pub fade: Corners,
    /// The fade of the first colour.
    pub first_alpha: Alphas,
    /// The fade of the second colour.
    pub second_alpha: Alphas,
    /// Whether the fades run from left to right.
    pub horizontal: bool,
}

/// What is drawn for a rectangle at `start` of the width `end[0]` and the
/// height `end[1]` that runs from one colour to another in the direction
/// `g_type`. The right edge of the filled rectangle lies `end[1]` beside
/// the left one.
pub fn rectangle_fade(start: [i32; 2], end: [i32; 2], g_type: GradientType) -> (plan: FadePlan)
    requires
        i32::MIN <= start[0] + end[0] <= i32::MAX,
        i32::MIN <= start[0] + end[1] <= i32::MAX,
        i32::MIN <= start[1] + end[1] <= i32::MAX,
    ensures
        plan == (FadePlan {
            fill: Corners {
                x0: start[0],
                y0: start[1],
                x1: (start[0] + end[1]) as i32,
                y1: (start[1] + end[1]) as i32,
            },
            fade: Corners {
                x0: start[0],
                y0: start[1],
                x1: (start[0] + end[0]) as i32,
                y1: (start[1] + end[1]) as i32,
            },
            first_alpha: Alphas { from: 255, to: 0 },
            second_alpha: Alphas { from: 0, to: 255 },
            horizontal: g_type == GradientType::GradientHorizontal,
        }),
{
    let bottom = start[1] + end[1];
    FadePlan {
        fill: Corners { x0: start[0], y0: start[1], x1: start[0] + end[1], y1: bottom },
        fade: Corners { x0: start[0], y0: start[1], x1: start[0] + end[0], y1: bottom },
        first_alpha: Alphas { from: 255, to: 0 },
        second_alpha: Alphas { from: 0, to: 255 },
        horizontal: g_type == GradientType::GradientHorizontal,
    }
}

} // verus!
