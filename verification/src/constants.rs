//! Default appearance of a bar.
//!
//! Numbers are given by their binary32 bit patterns.

use crate::color::Color;
use crate::scalar::{Scalar, ONE_BITS, ZERO_BITS};
use vstd::prelude::*;

verus! {

/// Bit pattern of 1.2, the default width of a bar.
pub const DEFAULT_WIDTH_BITS: u32 = 0x3f99_999a;

/// Bit pattern of 0.1666, the default height of a bar as a fraction of its
/// width.
pub const DEFAULT_RELATIVE_HEIGHT_BITS: u32 = 0x3e2a_9931;

/// Bit pattern of 0.75, the alpha of the default background.
pub const BACKGROUND_ALPHA_BITS: u32 = 0x3f40_0000;

/// Bit pattern of 0.95, the alpha of the default border and foreground.
pub const FOREGROUND_ALPHA_BITS: u32 = 0x3f73_3333;

/// Bit pattern of 0.02, each colour channel of the default border.
pub const BORDER_CHANNEL_BITS: u32 = 0x3ca3_d70a;

/// The default width of a bar.
pub open spec fn spec_default_width() -> Scalar {
    Scalar { bits: DEFAULT_WIDTH_BITS }
}

#[verifier::when_used_as_spec(spec_default_width)]
pub fn default_width() -> (r: Scalar)
    ensures
        r == spec_default_width(),
{
    Scalar { bits: DEFAULT_WIDTH_BITS }
}

/// The default height of a bar, relative to its width.
pub open spec fn spec_default_relative_height() -> Scalar {
    Scalar { bits: DEFAULT_RELATIVE_HEIGHT_BITS }
}

#[verifier::when_used_as_spec(spec_default_relative_height)]
pub fn default_relative_height() -> (r: Scalar)
    ensures
        r == spec_default_relative_height(),
{
    Scalar { bits: DEFAULT_RELATIVE_HEIGHT_BITS }
}

/// Translucent black, behind the bar's filling.
pub open spec fn spec_default_background_color() -> Color {
    Color::spec_srgba(
        Scalar { bits: ZERO_BITS },
        Scalar { bits: ZERO_BITS },
        Scalar { bits: ZERO_BITS },
        Scalar { bits: BACKGROUND_ALPHA_BITS },
    )
}

#[verifier::when_used_as_spec(spec_default_background_color)]
pub fn default_background_color() -> (c: Color)
    ensures
        c == spec_default_background_color(),
{
    Color::srgba(
        Scalar { bits: ZERO_BITS },
        Scalar { bits: ZERO_BITS },
        Scalar { bits: ZERO_BITS },
        Scalar { bits: BACKGROUND_ALPHA_BITS },
    )
}

/// Near-black, for the frame around a bar.
pub open spec fn spec_default_border_color() -> Color {
    Color::spec_srgba(
        Scalar { bits: BORDER_CHANNEL_BITS },
        Scalar { bits: BORDER_CHANNEL_BITS },
        Scalar { bits: BORDER_CHANNEL_BITS },
        Scalar { bits: FOREGROUND_ALPHA_BITS },
    )
}

#[verifier::when_used_as_spec(spec_default_border_color)]
pub fn default_border_color() -> (c: Color)
    ensures
        c == spec_default_border_color(),
{
    Color::srgba(
        Scalar { bits: BORDER_CHANNEL_BITS },
        Scalar { bits: BORDER_CHANNEL_BITS },
        Scalar { bits: BORDER_CHANNEL_BITS },
        Scalar { bits: FOREGROUND_ALPHA_BITS },
    )
}

/// Green, for a well-filled bar.
pub open spec fn spec_default_high_color() -> Color {
    Color::spec_srgba(
        Scalar { bits: ZERO_BITS },
        Scalar { bits: ONE_BITS },
        Scalar { bits: ZERO_BITS },
        Scalar { bits: FOREGROUND_ALPHA_BITS },
    )
}

#[verifier::when_used_as_spec(spec_default_high_color)]
pub fn default_high_color() -> (c: Color)
    ensures
        c == spec_default_high_color(),
{
    Color::srgba(
        Scalar { bits: ZERO_BITS },
        Scalar { bits: ONE_BITS },
        Scalar { bits: ZERO_BITS },
        Scalar { bits: FOREGROUND_ALPHA_BITS },
    )
}

/// Yellow, for a bar that is neither well filled nor nearly empty.
pub open spec fn spec_default_moderate_color() -> Color {
    Color::spec_srgba(
        Scalar { bits: ONE_BITS },
        Scalar { bits: ONE_BITS },
        Scalar { bits: ZERO_BITS },
        Scalar { bits: FOREGROUND_ALPHA_BITS },
    )
}

#[verifier::when_used_as_spec(spec_default_moderate_color)]
pub fn default_moderate_color() -> (c: Color)
    ensures
        c == spec_default_moderate_color(),
{
    Color::srgba(
        Scalar { bits: ONE_BITS },
        Scalar { bits: ONE_BITS },
        Scalar { bits: ZERO_BITS },
        Scalar { bits: FOREGROUND_ALPHA_BITS },
    )
}

/// Red, for a nearly empty bar.
pub open spec fn spec_default_low_color() -> Color {
    Color::spec_srgba(
        Scalar { bits: ONE_BITS },
        Scalar { bits: ZERO_BITS },
        Scalar { bits: ZERO_BITS },
        Scalar { bits: FOREGROUND_ALPHA_BITS },
    )
}

#[verifier::when_used_as_spec(spec_default_low_color)]
pub fn default_low_color() -> (c: Color)
    ensures
        c == spec_default_low_color(),
{
    Color::srgba(
        Scalar { bits: ONE_BITS },
        Scalar { bits: ZERO_BITS },
        Scalar { bits: ZERO_BITS },
        Scalar { bits: FOREGROUND_ALPHA_BITS },
    )
}

} // verus!
