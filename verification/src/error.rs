//! The ways in which planning and the acquisition of one tile can fail.

use vstd::prelude::*;

verus! {

/// Planning the time window failed. Nothing can be acquired without a plan.
#[derive(Clone, Copy, Debug, PartialEq, Eq, Structural)]
pub enum PlanningError {
    /// The current instant lies outside the range of instants that have a
    /// calendar date.
    InvalidInstant,
    /// The oldest slot of the window would lie before the first instant that
    /// has a calendar date.
    Underflow,
}

/// Acquiring one tile failed. The slot is left out and the run goes on.
#[derive(Clone, Copy, Debug, PartialEq, Eq, Structural)]
pub enum TileError {
    /// The tile service could not be reached or answered with a failure.
    Network,
    /// The answer of the tile service is longer than the accepted size.
    OversizedBody,
    /// The bytes are no image that can be decoded.
    Decode,
    /// The cached image is not a plain raster of red, green and blue samples.
    UnsupportedLayout,
    /// The cache could not be read or written.
    Storage,
}

} // verus!
