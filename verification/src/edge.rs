//! Vertices and edges.

use vstd::prelude::*;

verus! {

/// A vertex is a typesafe integer identifier. Generated graphs number their
/// vertices from 1.
#[derive(Debug, Clone, Copy, PartialEq, Eq, Structural, PartialOrd, Ord, Hash)]
pub struct Vertex {
    /// The vertex identifier.
    pub id: isize,
}

/// An edge connects two vertices.
#[derive(Debug, Clone, Copy, PartialEq, Eq, Structural, PartialOrd, Ord, Hash)]
pub struct Edge {
    /// The source end of the edge.
    pub src: Vertex,
    /// The target end of the edge.
    pub dst: Vertex,
}

impl Edge {
    /// The edge that runs the other way.
    pub open spec fn reversed(self) -> Edge {
        Edge { src: self.dst, dst: self.src }
    }

    /// Whether both ends are the same vertex.
    pub open spec fn self_loop(self) -> bool {
        self.src == self.dst
    }

    /// Returns true iff this edge is self looping.
    pub fn is_self_loop(self) -> (b: bool)
        ensures
            b == self.self_loop(),
    {
        self.src.id == self.dst.id
    }

    /// Returns the edge with its two ends swapped.
    pub fn rev(self) -> (r: Edge)
        ensures
            r == self.reversed(),
    {
        Edge { src: self.dst, dst: self.src }
    }
}

} // verus!
