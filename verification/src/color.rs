//! Color types and perceptually uniform interpolation.
//!
//! Interpolation of theme colors happens in the Oklch space (with wrap-aware
//! hue interpolation), while in-buffer compositing happens in the Oklab
//! space. Channels are fixed-point scalars (see [`crate::fixed`]): one unit
//! of lightness or chroma, and one full hue turn, are [`SCALE`] steps. The
//! presentation layer converts between these spaces and display sRGB.

use vstd::prelude::*;

use crate::fixed::{fx_lerp, fx_ok, rem_euclid_i64, spec_fx_lerp, FX_LIMIT, SCALE};

verus! {

/// A display color: an sRGB triple of 8-bit channels.
#[derive(Clone, Copy, Debug, PartialEq, Eq, Structural)]
pub struct ColorU8Rgb {
    pub red: u8,
    pub green: u8,
    pub blue: u8,
}

impl ColorU8Rgb {
    pub fn new(red: u8, green: u8, blue: u8) -> (r: ColorU8Rgb)
        ensures
            r == (ColorU8Rgb { red, green, blue }),
    {
        ColorU8Rgb { red, green, blue }
    }
}

/// A color in the Oklch color space, in fixed-point channels.
/// Lightness and chroma lie in `[0, SCALE]`; hue has a period of `SCALE`.
#[derive(Clone, Copy, Debug, PartialEq, Eq, Structural)]
pub struct ColorOklch {
    pub lightness: i64,
    pub chroma: i64,
    pub hue: i64,
}

/// A color in the Oklab color space, in fixed-point channels.
/// Mainly used for compositing.
#[derive(Clone, Copy, Debug, PartialEq, Eq, Structural)]
pub struct ColorOklab {
    pub lightness: i64,
    pub chroma_a: i64,
    pub chroma_b: i64,
}

pub open spec fn oklch_ok(c: ColorOklch) -> bool {
    fx_ok(c.lightness as int) && fx_ok(c.chroma as int) && fx_ok(c.hue as int)
}

pub open spec fn oklab_ok(c: ColorOklab) -> bool {
    fx_ok(c.lightness as int) && fx_ok(c.chroma_a as int) && fx_ok(c.chroma_b as int)
}

/// Hue interpolation along the shorter angular path. The fractional parts of
/// both hues are compared; when they are more than half a turn apart, the
/// lower one is lifted by a full turn so that interpolation wraps through the
/// turn boundary instead of sweeping the long way around.
pub open spec fn spec_hue_lerp(a: int, b: int, t: int) -> int {
    let s = SCALE as int;
    let la = a % s;
    let lb = b % s;
    let diff = lb - la;
    if -s <= 2 * diff <= s {
        spec_fx_lerp(a, b, t)
    } else if diff > 0 {
        spec_fx_lerp(la + s, lb, t)
    } else {
        spec_fx_lerp(la, lb + s, t)
    }
}

pub fn hue_lerp(a: i64, b: i64, t: i64) -> (r: i64)
    requires
        fx_ok(a as int) && fx_ok(b as int),
        0 <= t <= SCALE,
    ensures
        r == spec_hue_lerp(a as int, b as int, t as int),
        fx_ok(r as int),
{
    let la = rem_euclid_i64(a, SCALE);
    let lb = rem_euclid_i64(b, SCALE);
    let diff = lb - la;
    if -SCALE <= 2 * diff && 2 * diff <= SCALE {
        fx_lerp(a, b, t)
    } else if diff > 0 {
        fx_lerp(la + SCALE, lb, t)
    } else {
        fx_lerp(la, lb + SCALE, t)
    }
}

impl ColorOklch {
    pub fn new(lightness: i64, chroma: i64, hue: i64) -> (r: ColorOklch)
        ensures
            r == (ColorOklch { lightness, chroma, hue }),
    {
        ColorOklch { lightness, chroma, hue }
    }

    pub open spec fn spec_lerp(self, rhs: ColorOklch, t: int) -> ColorOklch {
        ColorOklch {
            lightness: spec_fx_lerp(self.lightness as int, rhs.lightness as int, t) as i64,
            chroma: spec_fx_lerp(self.chroma as int, rhs.chroma as int, t) as i64,
            hue: spec_hue_lerp(self.hue as int, rhs.hue as int, t) as i64,
        }
    }

    /// Interpolates lightness and chroma linearly and the hue along the
    /// shorter angular path.
    pub fn lerp(&self, rhs: &ColorOklch, t: i64) -> (r: ColorOklch)
        requires
            oklch_ok(*self) && oklch_ok(*rhs),
            0 <= t <= SCALE,
        ensures
            r == self.spec_lerp(*rhs, t as int),
            oklch_ok(r),
    {
        let hue = hue_lerp(self.hue, rhs.hue, t);
        ColorOklch {
            lightness: fx_lerp(self.lightness, rhs.lightness, t),
            chroma: fx_lerp(self.chroma, rhs.chroma, t),
            hue,
        }
    }
}

impl ColorOklab {
    pub fn new(lightness: i64, chroma_a: i64, chroma_b: i64) -> (r: ColorOklab)
        ensures
            r == (ColorOklab { lightness, chroma_a, chroma_b }),
    {
        ColorOklab { lightness, chroma_a, chroma_b }
    }

    pub open spec fn spec_lerp(self, rhs: ColorOklab, t: int) -> ColorOklab {
        ColorOklab {
            lightness: spec_fx_lerp(self.lightness as int, rhs.lightness as int, t) as i64,
            chroma_a: spec_fx_lerp(self.chroma_a as int, rhs.chroma_a as int, t) as i64,
            chroma_b: spec_fx_lerp(self.chroma_b as int, rhs.chroma_b as int, t) as i64,
        }
    }

    /// Channel-wise linear interpolation.
    pub fn lerp(&self, rhs: &ColorOklab, t: i64) -> (r: ColorOklab)
        requires
            oklab_ok(*self) && oklab_ok(*rhs),
            0 <= t <= SCALE,
        ensures
            r == self.spec_lerp(*rhs, t as int),
            oklab_ok(r),
    {
        ColorOklab {
            lightness: fx_lerp(self.lightness, rhs.lightness, t),
            chroma_a: fx_lerp(self.chroma_a, rhs.chroma_a, t),
            chroma_b: fx_lerp(self.chroma_b, rhs.chroma_b, t),
        }
    }
}

/// A foreground/background pair for styling cells, in compositing space.
#[derive(Clone, Copy, Debug, PartialEq, Eq, Structural)]
pub struct TextColor {
    pub fg: ColorOklab,
    pub bg: ColorOklab,
}

pub open spec fn text_color_ok(c: TextColor) -> bool {
    oklab_ok(c.fg) && oklab_ok(c.bg)
}

impl TextColor {
    /// White text on a black background, as a specification value. Both
    /// colors have exact Oklab coordinates.
    pub open spec fn spec_white_on_black() -> TextColor {
        TextColor {
            fg: ColorOklab { lightness: SCALE as i64, chroma_a: 0i64, chroma_b: 0i64 },
            bg: ColorOklab { lightness: 0i64, chroma_a: 0i64, chroma_b: 0i64 },
        }
    }

    /// White text on a black background.
    pub fn white_on_black() -> (r: TextColor)
        ensures
            r == TextColor::spec_white_on_black(),
            text_color_ok(r),
    {
        TextColor {
            fg: ColorOklab { lightness: SCALE, chroma_a: 0, chroma_b: 0 },
            bg: ColorOklab { lightness: 0, chroma_a: 0, chroma_b: 0 },
        }
    }

    /// Swaps foreground and background.
    pub fn invert(self) -> (r: TextColor)
        ensures
            r.fg == self.bg && r.bg == self.fg,
    {
        TextColor { fg: self.bg, bg: self.fg }
    }

    pub fn fg(self, fg: ColorOklab) -> (r: TextColor)
        ensures
            r.fg == fg && r.bg == self.bg,
    {
        TextColor { fg, ..self }
    }

    pub fn bg(self, bg: ColorOklab) -> (r: TextColor)
        ensures
            r.bg == bg && r.fg == self.fg,
    {
        TextColor { bg, ..self }
    }

    pub open spec fn spec_lerp(self, rhs: TextColor, t: int) -> TextColor {
        TextColor { fg: self.fg.spec_lerp(rhs.fg, t), bg: self.bg.spec_lerp(rhs.bg, t) }
    }

    pub fn lerp(&self, rhs: &TextColor, t: i64) -> (r: TextColor)
        requires
            text_color_ok(*self) && text_color_ok(*rhs),
            0 <= t <= SCALE,
        ensures
            r == self.spec_lerp(*rhs, t as int),
            text_color_ok(r),
    {
        TextColor { fg: self.fg.lerp(&rhs.fg, t), bg: self.bg.lerp(&rhs.bg, t) }
    }
}

/// A color with an alpha in `[0, SCALE]`.
#[derive(Clone, Copy, Debug, PartialEq, Eq, Structural)]
pub struct Blended {
    pub color: ColorOklab,
    pub alpha: i64,
}

pub open spec fn blended_ok(c: Blended) -> bool {
    oklab_ok(c.color) && 0 <= c.alpha <= SCALE
}

impl Blended {
    pub fn new(color: ColorOklab, alpha: i64) -> (r: Blended)
        ensures
            r == (Blended { color, alpha }),
    {
        Blended { color, alpha }
    }
}

/// Alpha compositing of a translucent color over an opaque background.
pub trait Over {
    /// Well-formedness the compositor needs of `self`.
    spec fn over_ok(&self) -> bool;

    /// What the composite is, per implementor.
    spec fn spec_over(&self, under: ColorOklab) -> ColorOklab;

    /// The composited result: background where alpha is `0`, the color
    /// itself where alpha is `SCALE`, a linear blend in between.
    fn over(&self, under: &ColorOklab) -> (r: ColorOklab)
        requires
            self.over_ok(),
            oklab_ok(*under),
        ensures
            r == self.spec_over(*under),
            oklab_ok(r),
    ;
}

impl Over for Blended {
    open spec fn over_ok(&self) -> bool {
        blended_ok(*self)
    }

    open spec fn spec_over(&self, under: ColorOklab) -> ColorOklab {
        under.spec_lerp(self.color, self.alpha as int)
    }

    fn over(&self, under: &ColorOklab) -> (r: ColorOklab) {
        under.lerp(&self.color, self.alpha)
    }
}

} // verus!
