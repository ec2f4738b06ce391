//! The names that most users of the crate need.

pub use crate::color::{Color, ColorSpace};
pub use crate::configuration::{
    BarBorder, BarHeight, BarOrientation, BarSettings, ColorScheme, ForegroundColor, Percentage,
};
pub use crate::scalar::Scalar;
