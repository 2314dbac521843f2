//! A small verified color-mixing library.
//!
//! The mixer holds a bounded collection of colors drawn from a closed set of
//! yellow and blue shades, and computes one deterministic blended color from
//! the current contents: the empty mixer is an error, a single entry is
//! returned unchanged, a single-family mix is that family's average, and a
//! two-family mix is a count-weighted average truncated per channel.

pub mod color;
pub mod error;
pub mod laws;
pub mod mixer;

pub use color::Color;
pub use error::ColorMixerError;
pub use mixer::{default_quantity, default_shade, AddColorRequest, ColorMixer, MAX_COLORS};
