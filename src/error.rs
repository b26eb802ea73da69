//! Errors reported while preparing a badge.

use vstd::prelude::*;

verus! {

/// Why a badge could not be prepared.
#[derive(Clone, Debug, PartialEq, Eq)]
pub enum BadgeError {
    /// The font could not be read, or has no usable vertical extent.
    CannotLoadFont,
    /// The given text does not name a colour.
    ColorNotValid(String),
    /// The logo at the given location could not be fetched.
    CannotEmbedLogo(String),
}

} // verus!
