//! Options that the command line selects.

use vstd::prelude::*;

verus! {

/// How the hand is tracked.
#[derive(Clone, Copy, Debug, PartialEq, Eq, PartialOrd, Ord)]
pub enum TrackingMode {
    /// Fastest, tracks a specific colour.
    Color,
    /// Slower, uses the landmark model.
    Ai,
}

} // verus!
