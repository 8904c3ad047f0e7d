//! Colours in three colour spaces.

use vstd::prelude::*;
use crate::number::Number;

verus! {

/// A colour with its opacity.
#[derive(Debug, Clone, Copy)]
pub enum Color {
    Hsla { hue: Number, saturation: Number, lightness: Number, alpha: Number },
    Srgba { red: Number, green: Number, blue: Number, alpha: Number },
    LinearRgba { red: Number, green: Number, blue: Number, alpha: Number },
}

impl Color {
    /// Opaque white in linear RGB.
    pub open spec fn white_value() -> Color {
        Color::LinearRgba {
            red: Number::one_value(),
            green: Number::one_value(),
            blue: Number::one_value(),
            alpha: Number::one_value(),
        }
    }

    /// Black without opacity in linear RGB.
    pub open spec fn black_value() -> Color {
        Color::LinearRgba {
            red: Number::zero_value(),
            green: Number::zero_value(),
            blue: Number::zero_value(),
            alpha: Number::zero_value(),
        }
    }

    /// Same colour space and numerically equal components.
    pub open spec fn same_value(self, other: Color) -> bool {
        match (self, other) {
            (
                Color::Hsla { hue: a, saturation: b, lightness: c, alpha: d },
                Color::Hsla { hue: e, saturation: f, lightness: g, alpha: h },
            ) => a.same_value(e) && b.same_value(f) && c.same_value(g) && d.same_value(h),
            (
                Color::Srgba { red: a, green: b, blue: c, alpha: d },
                Color::Srgba { red: e, green: f, blue: g, alpha: h },
            ) => a.same_value(e) && b.same_value(f) && c.same_value(g) && d.same_value(h),
            (
                Color::LinearRgba { red: a, green: b, blue: c, alpha: d },
                Color::LinearRgba { red: e, green: f, blue: g, alpha: h },
            ) => a.same_value(e) && b.same_value(f) && c.same_value(g) && d.same_value(h),
            _ => false,
        }
    }

    pub fn white() -> (r: Color)
        ensures
            r == Color::white_value(),
    {
        Color::LinearRgba { red: Number::one(), green: Number::one(), blue: Number::one(), alpha: Number::one() }
    }

    pub fn black() -> (r: Color)
        ensures
            r == Color::black_value(),
    {
        Color::LinearRgba {
            red: Number::zero(),
            green: Number::zero(),
            blue: Number::zero(),
            alpha: Number::zero(),
        }
    }

    /// Whether both are the same colour.
    pub fn equals(&self, other: &Color) -> (r: bool)
        ensures
            r == self.same_value(*other),
    {
        match (self, other) {
            (
                Color::Hsla { hue: a, saturation: b, lightness: c, alpha: d },
                Color::Hsla { hue: e, saturation: f, lightness: g, alpha: h },
            ) => a.equals(e) && b.equals(f) && c.equals(g) && d.equals(h),
            (
                Color::Srgba { red: a, green: b, blue: c, alpha: d },
                Color::Srgba { red: e, green: f, blue: g, alpha: h },
            ) => a.equals(e) && b.equals(f) && c.equals(g) && d.equals(h),
            (
                Color::LinearRgba { red: a, green: b, blue: c, alpha: d },
                Color::LinearRgba { red: e, green: f, blue: g, alpha: h },
            ) => a.equals(e) && b.equals(f) && c.equals(g) && d.equals(h),
            _ => false,
        }
    }
}

} // verus!
