//! The error taxonomy of the mixer.

use vstd::prelude::*;

verus! {

/// Everything that can go wrong while adding colors or mixing them.
///
/// `UnsupportedColor` carries the full human-readable message, including the
/// spelling that was rejected.
#[derive(Debug, PartialEq, Eq)]
pub enum ColorMixerError {
    /// The given spelling is not one of the recognized color names or hex codes.
    UnsupportedColor(String),
    /// Adding the requested colors would push the mixer past its capacity.
    MaxColorsReached,
    /// A mix was requested while the mixer holds no colors.
    NoColors,
}

} // verus!
