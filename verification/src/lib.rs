//! Precipitation nowcast engine: slippy-map tile projection, catalog time
//! matching, a FIFO tile cache, pixel-to-intensity classification, and
//! window aggregation, together with the place-picking rules built on top.

pub mod cache;
pub mod jma;
pub mod mood;
pub mod palette;
pub mod place;
pub mod utils;

use vstd::prelude::*;

verus! {

/// Errors surfaced by the aggregation pipeline.
#[derive(Clone, Copy, Debug, PartialEq, Eq, Structural)]
pub enum EngineError {
    /// The requested window has already elapsed.
    OutOfWindow,
    /// A catalog entry carries a valid time that does not parse.
    CatalogTime,
}

} // verus!
