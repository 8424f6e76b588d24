//! Typed results for the conditions the pipeline treats as fatal:
//! these abort a run, they are never silently retried or defaulted.

use vstd::prelude::*;

verus! {

/// Why US-style decomposition of a location string failed.
#[derive(Clone, Copy, Debug, PartialEq, Eq, Structural)]
pub enum GeoError {
    /// A US row carried no province/state value at all.
    ProvinceMissing,
    /// The location contains a comma but not the `", "` separator the
    /// splitter needs, so no state token can be read.
    MalformedLocation,
    /// The state token is not one of the fifty known abbreviations.
    UnknownStateAbbreviation,
}

/// Why reshaping a wide table failed.
#[derive(Clone, Copy, Debug, PartialEq, Eq, Structural)]
pub enum TransformError {
    /// A header cell past the four identifier columns is not a date in
    /// the fixed month/day/two-digit-year format.
    UnparseableHeaderDate,
    /// Geographic normalization of a US row failed.
    Geo(GeoError),
}

} // verus!
