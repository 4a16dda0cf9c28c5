//! The closed set of things that can be generated and rendered.

use crate::clique::MaxCliqueGraph;
use crate::formats::{
    clique_dimacs_lines, graph_dimacs_lines, graph_dot_lines, sat_dimacs_lines, sat_dot_lines,
};
use crate::graph::{Graph, GraphView};
use crate::sat::Max2SatGraph;
use crate::text::join_lines;
use vstd::prelude::*;

verus! {

/// What can be generated: a plain graph, a clique instance or a max2sat
/// instance. Each answers the two renderings.
#[allow(inconsistent_fields)]
pub enum Generatable {
    /// A plain weighted graph.
    GenGraph { g: Graph },
    /// A clique instance.
    ClqGraph { g: MaxCliqueGraph },
    /// A max2sat instance.
    GenSat { s: Max2SatGraph },
}

/// The kinds of instances that can be asked for.
#[derive(Debug, Clone, Copy, PartialEq, Eq, Structural)]
pub enum Kind {
    /// A plain weighted graph.
    Plain,
    /// A clique instance.
    MaxClique,
    /// A max2sat instance.
    Max2Sat,
}

impl Generatable {
    /// Wraps a graph that is already built into the instance of the kind
    /// asked for. The edges are not touched.
    pub fn wrap(kind: Kind, g: Graph) -> (r: Generatable)
        ensures
            r.graph() == g@,
            match kind {
                Kind::Plain => r is GenGraph,
                Kind::MaxClique => r is ClqGraph,
                Kind::Max2Sat => r is GenSat,
            },
    {
        match kind {
            Kind::Plain => Generatable::GenGraph { g },
            Kind::MaxClique => Generatable::ClqGraph { g: MaxCliqueGraph::new(g) },
            Kind::Max2Sat => Generatable::GenSat { s: Max2SatGraph::new(g) },
        }
    }

    /// The graph of this instance, as mathematics.
    pub open spec fn graph(&self) -> GraphView {
        match self {
            Generatable::GenGraph { g } => g@,
            Generatable::ClqGraph { g } => g@,
            Generatable::GenSat { s } => s@,
        }
    }

    /// The lines of the problem file of this instance.
    pub open spec fn dimacs_lines(&self) -> Seq<Seq<char>> {
        match self {
            Generatable::GenGraph { g } => graph_dimacs_lines(g@),
            Generatable::ClqGraph { g } => clique_dimacs_lines(g@),
            Generatable::GenSat { s } => sat_dimacs_lines(s@),
        }
    }

    /// The lines of the drawing of this instance.
    pub open spec fn dot_lines(&self) -> Seq<Seq<char>> {
        match self {
            Generatable::GenGraph { g } => graph_dot_lines(g@),
            Generatable::ClqGraph { g } => graph_dot_lines(g@),
            Generatable::GenSat { s } => sat_dot_lines(s@),
        }
    }

    /// The instance as a problem file, in the format of its kind.
    pub fn to_dimacs(&self) -> (text: String)
        ensures
            text@ == join_lines(self.dimacs_lines()),
    {
        match self {
            Generatable::GenGraph { g } => g.to_dimacs(),
            Generatable::ClqGraph { g } => g.to_dimacs(),
            Generatable::GenSat { s } => s.to_dimacs(),
        }
    }

    /// The instance as a drawing.
    pub fn to_dot(&self) -> (text: String)
        ensures
            text@ == join_lines(self.dot_lines()),
    {
        match self {
            Generatable::GenGraph { g } => g.to_dot(),
            Generatable::ClqGraph { g } => g.to_dot(),
            Generatable::GenSat { s } => s.to_dot(),
        }
    }
}

} // verus!
