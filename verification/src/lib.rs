//! Status bars that float above the entities of a game: how a bar is sized
//! and coloured from its settings, which mesh it is drawn on, and which
//! variant of its shader it needs.
//!
//! The crate holds the decisions; the engine that draws the bars is its
//! caller. Numbers cross the boundary as binary32 bit patterns, see
//! [`scalar::Scalar`].

pub mod color;
pub mod configuration;
pub mod constants;
pub mod material;
pub mod mesh;
pub mod plugin;
pub mod prelude;
pub mod scalar;
