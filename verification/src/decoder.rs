//! Events reported by a trigger decoder for each crankshaft edge.

use vstd::prelude::*;

verus! {

/// What the decoder concluded about one edge of the crank position sensor.
#[derive(Debug, PartialEq, Eq, Clone, Copy, Structural)]
pub enum DecoderEvent {
    /// First-ever edge (or first edge after a reset): no interval exists yet.
    NoEvent,
    /// A normal tooth was accepted.
    ToothProcessed,
    /// The edge was rejected as electrical noise; state is unchanged.
    Noise,
    /// The missing-tooth gap was just identified: the wheel position is known.
    SyncGained,
    /// More teeth were counted than the wheel has: position was lost.
    SyncLost,
}

} // verus!
