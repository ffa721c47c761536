//! Failures of a conversion. The engine fails fast: any of these aborts the
//! whole conversion and no partial output is produced.

use vstd::prelude::*;

verus! {

/// Why a conversion was aborted.
#[derive(Clone, Copy, Debug, PartialEq, Eq, Structural)]
pub enum DitherError {
    /// The configuration cannot serve the image, e.g. a precomputed noise
    /// sample table smaller than the pixel count.
    ConfigurationError,
    /// A noise sample was requested beyond the precomputed table.
    IndexOutOfRange,
    /// A channel value that cannot be ordered against others (a source image
    /// handed over a non-finite channel).
    InvalidColorValue,
}

impl DitherError {
    /// A short description of the failure.
    pub fn message(&self) -> (r: &'static str)
        ensures
            self is ConfigurationError ==> r@ == "noise sample table is smaller than the image"@,
            self is IndexOutOfRange ==> r@ == "noise sample index is out of range"@,
            self is InvalidColorValue ==> r@ == "color channel is not a finite value"@,
    {
        match self {
            DitherError::ConfigurationError => "noise sample table is smaller than the image",
            DitherError::IndexOutOfRange => "noise sample index is out of range",
            DitherError::InvalidColorValue => "color channel is not a finite value",
        }
    }
}

} // verus!
