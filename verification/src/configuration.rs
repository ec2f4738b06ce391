//! What a user sets about a bar: its size, placement, border and colours.

use crate::color::Color;
use crate::constants::{
    default_background_color, default_border_color, default_high_color, default_low_color,
    default_moderate_color, default_relative_height, default_width,
};
use crate::material::Vector4;
use crate::scalar::{Scalar, ZERO_BITS};
use vstd::prelude::*;

verus! {

/// Describes the orientation of a bar.
#[derive(Debug, Clone, Copy, PartialEq, Eq, Structural)]
pub enum BarOrientation {
    Horizontal,
    Vertical,
}

impl Default for BarOrientation {
    fn default() -> (r: Self)
        ensures
            r == BarOrientation::Horizontal,
    {
        BarOrientation::Horizontal
    }
}

/// Describes the height of a bar.
#[derive(Debug, Clone, Copy, PartialEq, Eq, Structural)]
pub enum BarHeight {
    /// Bar height relative to its width.
    Relative(Scalar),
    /// Static bar height.
    Static(Scalar),
}

impl Default for BarHeight {
    fn default() -> (r: Self)
        ensures
            r == BarHeight::Relative(default_relative_height()),
    {
        BarHeight::Relative(default_relative_height())
    }
}

/// Describes the border of a bar. Defaults to no border.
#[derive(Debug, Clone, Copy, PartialEq, Eq, Structural)]
pub struct BarBorder {
    pub width: Scalar,
    pub color: Color,
}

impl BarBorder {
    /// A border of the given width in the default border colour.
    pub fn new(width: Scalar) -> (r: Self)
        ensures
            r == (BarBorder { width, color: default_border_color() }),
    {
        BarBorder { width, color: default_border_color() }
    }

    /// The same border in another colour.
    pub fn color(self, color: Color) -> (r: Self)
        ensures
            r == (BarBorder { width: self.width, color }),
    {
        BarBorder { width: self.width, color }
    }
}

impl Default for BarBorder {
    fn default() -> (r: Self)
        ensures
            r == (BarBorder { width: Scalar { bits: ZERO_BITS }, color: default_border_color() }),
            r.width.spec_is_zero(),
            !r.width.spec_is_positive(),
    {
        BarBorder { width: Scalar::zero(), color: default_border_color() }
    }
}

/// The source of the value a bar shows.
pub trait Percentage {
    /// Value between 0 and 1.
    fn value(&self) -> Scalar;
}

/// The foreground colour is either static or a tri-colour spectrum of a
/// high, a moderate and a low colour, between which the bar's value chooses.
#[derive(Debug, Clone, Copy, PartialEq, Eq, Structural)]
pub enum ForegroundColor {
    Static(Color),
    TriSpectrum { high: Color, moderate: Color, low: Color },
}

impl ForegroundColor {
    /// The high, moderate and low colour, in that order. A static colour
    /// fills all three places.
    pub open spec fn spec_spectrum(self) -> (Color, Color, Color) {
        match self {
            ForegroundColor::Static(color) => (color, color, color),
            ForegroundColor::TriSpectrum { high, moderate, low } => (high, moderate, low),
        }
    }

    #[verifier::when_used_as_spec(spec_spectrum)]
    pub fn spectrum(self) -> (r: (Color, Color, Color))
        ensures
            r == self.spec_spectrum(),
    {
        match self {
            ForegroundColor::Static(color) => (color, color, color),
            ForegroundColor::TriSpectrum { high, moderate, low } => (high, moderate, low),
        }
    }
}

/// The colours of the bars of one tracked kind of value.
#[derive(Debug, Clone, Copy, PartialEq, Eq, Structural)]
pub struct ColorScheme {
    pub foreground_color: ForegroundColor,
    pub background_color: Color,
}

impl ColorScheme {
    /// The default scheme: a green, yellow and red spectrum on translucent
    /// black.
    pub open spec fn spec_default() -> ColorScheme {
        ColorScheme {
            foreground_color: ForegroundColor::TriSpectrum {
                high: default_high_color(),
                moderate: default_moderate_color(),
                low: default_low_color(),
            },
            background_color: default_background_color(),
        }
    }

    /// Returns a default initialized scheme.
    pub fn new() -> (r: Self)
        ensures
            r == ColorScheme::spec_default(),
    {
        ColorScheme::default()
    }

    /// The same scheme on another background.
    pub fn background_color(self, color: Color) -> (r: Self)
        ensures
            r == (ColorScheme { foreground_color: self.foreground_color, background_color: color }),
    {
        ColorScheme { foreground_color: self.foreground_color, background_color: color }
    }

    /// Sets the foreground colour to either a static value or a tri-colour
    /// spectrum.
    pub fn foreground_color(self, color: ForegroundColor) -> (r: Self)
        ensures
            r == (ColorScheme { foreground_color: color, background_color: self.background_color }),
    {
        ColorScheme { foreground_color: color, background_color: self.background_color }
    }
}

impl Default for ColorScheme {
    fn default() -> (r: Self)
        ensures
            r == ColorScheme::spec_default(),
    {
        ColorScheme {
            foreground_color: ForegroundColor::TriSpectrum {
                high: default_high_color(),
                moderate: default_moderate_color(),
                low: default_low_color(),
            },
            background_color: default_background_color(),
        }
    }
}

/// Configures one bar.
#[derive(Debug, Clone, Copy, PartialEq, Eq, Structural)]
pub struct BarSettings {
    /// The width of the bar.
    pub width: Scalar,
    /// The offset of the bar relative to the entity it is attached to. For
    /// horizontal bars this is an offset along the y-axis, for vertical bars
    /// along the x-axis.
    pub offset: Scalar,
    pub height: BarHeight,
    pub border: BarBorder,
    pub orientation: BarOrientation,
}

impl BarSettings {
    /// The default settings: a horizontal bar of default width and relative
    /// height, without offset or border.
    pub open spec fn spec_default() -> BarSettings {
        BarSettings {
            width: default_width(),
            offset: Scalar { bits: ZERO_BITS },
            height: BarHeight::Relative(default_relative_height()),
            border: BarBorder { width: Scalar { bits: ZERO_BITS }, color: default_border_color() },
            orientation: BarOrientation::Horizontal,
        }
    }

    /// The height of the bar as an absolute length. A static height is that
    /// length. A relative height is a fraction of the width; their product is
    /// the caller's to compute and comes in as `relative`.
    pub open spec fn spec_absolute_height(&self, relative: Scalar) -> Scalar {
        match self.height {
            BarHeight::Relative(_) => relative,
            BarHeight::Static(height) => height,
        }
    }

    /// The extent of the bar's quad along the x-axis: the width of a
    /// horizontal bar, the absolute height of a vertical one.
    pub open spec fn spec_normalized_width(&self, relative: Scalar) -> Scalar {
        match self.orientation {
            BarOrientation::Horizontal => self.width,
            BarOrientation::Vertical => self.spec_absolute_height(relative),
        }
    }

    /// The extent of the bar's quad along the y-axis: the absolute height of
    /// a horizontal bar, the width of a vertical one.
    pub open spec fn spec_normalized_height(&self, relative: Scalar) -> Scalar {
        match self.orientation {
            BarOrientation::Horizontal => self.spec_absolute_height(relative),
            BarOrientation::Vertical => self.width,
        }
    }

    /// The displacement of the bar from its entity: the offset along the
    /// y-axis for a horizontal bar, along the x-axis for a vertical one, and
    /// positive zero on the other axes.
    pub open spec fn spec_normalized_offset(&self) -> Vector4 {
        let zero = Scalar { bits: ZERO_BITS };
        match self.orientation {
            BarOrientation::Horizontal => Vector4 { x: zero, y: self.offset, z: zero, w: zero },
            BarOrientation::Vertical => Vector4 { x: self.offset, y: zero, z: zero, w: zero },
        }
    }

    #[verifier::when_used_as_spec(spec_absolute_height)]
    pub fn absolute_height(&self, relative: Scalar) -> (r: Scalar)
        ensures
            r == self.spec_absolute_height(relative),
    {
        match self.height {
            BarHeight::Relative(_) => relative,
            BarHeight::Static(height) => height,
        }
    }

    #[verifier::when_used_as_spec(spec_normalized_width)]
    pub fn normalized_width(&self, relative: Scalar) -> (r: Scalar)
        ensures
            r == self.spec_normalized_width(relative),
    {
        match self.orientation {
            BarOrientation::Horizontal => self.width,
            BarOrientation::Vertical => self.absolute_height(relative),
        }
    }

    #[verifier::when_used_as_spec(spec_normalized_height)]
    pub fn normalized_height(&self, relative: Scalar) -> (r: Scalar)
        ensures
            r == self.spec_normalized_height(relative),
    {
        match self.orientation {
            BarOrientation::Horizontal => self.absolute_height(relative),
            BarOrientation::Vertical => self.width,
        }
    }

    #[verifier::when_used_as_spec(spec_normalized_offset)]
    pub fn normalized_offset(&self) -> (r: Vector4)
        ensures
            r == self.spec_normalized_offset(),
    {
        let zero = Scalar::zero();
        match self.orientation {
            BarOrientation::Horizontal => Vector4 { x: zero, y: self.offset, z: zero, w: zero },
            BarOrientation::Vertical => Vector4 { x: self.offset, y: zero, z: zero, w: zero },
        }
    }
}

impl Default for BarSettings {
    fn default() -> (r: Self)
        ensures
            r == BarSettings::spec_default(),
    {
        BarSettings {
            width: default_width(),
            offset: Scalar::zero(),
            height: BarHeight::default(),
            border: BarBorder::default(),
            orientation: BarOrientation::default(),
        }
    }
}

/// Turning a bar on its side swaps its extents: what was its normalized
/// width becomes its normalized height and the other way round, and the
/// offset moves to the other axis.
pub proof fn lemma_orientation_swaps_extents(settings: BarSettings, relative: Scalar)
    requires
        settings.orientation == BarOrientation::Horizontal,
    ensures
        ({
            let turned = BarSettings { orientation: BarOrientation::Vertical, ..settings };
            &&& turned.spec_normalized_width(relative) == settings.spec_normalized_height(relative)
            &&& turned.spec_normalized_height(relative) == settings.spec_normalized_width(relative)
            &&& turned.spec_normalized_offset().x == settings.spec_normalized_offset().y
            &&& turned.spec_normalized_offset().y == settings.spec_normalized_offset().x
        }),
{
}

} // verus!
