//! The ways in which a request can be turned down.

use vstd::prelude::*;

verus! {

/// Why a configuration, or an operation on a graph, was rejected.
#[derive(Debug, Clone, Copy, PartialEq, Eq, Structural)]
pub enum GenError {
    /// There is no vertex at all, or a single vertex while self loops are
    /// not allowed: no edge could ever be drawn.
    InvalidVertexCount,
    /// The edge probability does not lie in `[0, 1]`.
    InvalidProbability,
    /// The instance is too large: a vertex identifier or the number of
    /// edges to draw would not fit the machine's integers.
    InstanceTooLarge,
    /// Weights were to be picked from an empty list of candidates.
    NoWeightCandidates,
    /// The allowance of random draws ran out before enough distinct edges
    /// had been found.
    DrawsExhausted,
}

} // verus!
