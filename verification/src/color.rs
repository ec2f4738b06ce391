//! Colours as plain data: a colour space and four components.

use crate::scalar::Scalar;
use vstd::prelude::*;

verus! {

/// The colour spaces in which a colour can be given.
#[derive(Debug, Clone, Copy, PartialEq, Eq, Structural)]
pub enum ColorSpace {
    /// sRGB: red, green, blue.
    Srgba,
    /// Linear sRGB: red, green, blue.
    LinearRgba,
    /// HSL: hue, saturation, lightness.
    Hsla,
    /// HSV: hue, saturation, value.
    Hsva,
    /// HWB: hue, whiteness, blackness.
    Hwba,
    /// CIE LAB: lightness, a, b.
    Laba,
    /// CIE LCH: lightness, chroma, hue.
    Lcha,
    /// Oklab: lightness, a, b.
    Oklaba,
    /// Oklch: lightness, chroma, hue.
    Oklcha,
    /// CIE XYZ: x, y, z.
    Xyza,
}

/// A colour: three components in the order its space names them, and alpha.
///
/// The crate carries colours from a configuration to a material and never
/// looks into the components.
#[derive(Debug, Clone, Copy, PartialEq, Eq, Structural)]
pub struct Color {
    pub space: ColorSpace,
    pub first: Scalar,
    pub second: Scalar,
    pub third: Scalar,
    pub alpha: Scalar,
}

impl Color {
    /// The sRGB colour with the given components.
    pub open spec fn spec_srgba(red: Scalar, green: Scalar, blue: Scalar, alpha: Scalar) -> Color {
        Color { space: ColorSpace::Srgba, first: red, second: green, third: blue, alpha }
    }

    #[verifier::when_used_as_spec(spec_srgba)]
    pub fn srgba(red: Scalar, green: Scalar, blue: Scalar, alpha: Scalar) -> (c: Color)
        ensures
            c == Color::spec_srgba(red, green, blue, alpha),
    {
        Color { space: ColorSpace::Srgba, first: red, second: green, third: blue, alpha }
    }
}

} // verus!
