//! A graph read as a clique instance.

use crate::edge::Edge;
use crate::formats::{
    clique_dimacs_lines, edge_lines, graph_dot_lines, plain_edge_line, write_clique_problem_line,
    write_loops_comment, write_model_comment, write_plain_edge_line, write_size_comment,
};
use crate::graph::{Graph, GraphView};
use crate::text::{join_lines, Lines};
use vstd::prelude::*;
use vstd::string::*;

verus! {

/// A graph whose edges are read without their weights.
#[derive(Debug)]
pub struct MaxCliqueGraph {
    g: Graph,
}

impl View for MaxCliqueGraph {
    type V = GraphView;

    closed spec fn view(&self) -> GraphView {
        self.g@
    }
}

impl MaxCliqueGraph {
    /// The clique instance on the graph `g`.
    pub fn new(g: Graph) -> (clique: MaxCliqueGraph)
        ensures
            clique@ == g@,
    {
        MaxCliqueGraph { g }
    }

    /// The instance as a drawing, which is that of its graph.
    pub fn to_dot(&self) -> (text: String)
        ensures
            text@ == join_lines(graph_dot_lines(self@)),
    {
        self.g.to_dot()
    }

    /// The instance in the unweighted edge-list format.
    pub fn to_dimacs(&self) -> (text: String)
        ensures
            text@ == join_lines(clique_dimacs_lines(self@)),
    {
        let model = self.g.model();
        let n = self.g.nb_vertices();
        let edges = self.g.edges();
        let m = edges.len();
        let mut out = Lines::new();
        out.push(write_model_comment(model).as_str());
        out.push(write_loops_comment(model.allows_self_loops()).as_str());
        out.push(write_size_comment(n, m).as_str());
        out.push("c The edges of this graph are UNWEIGHTED");
        out.push("c -------------------------------------------------------------");
        out.push("c Generated w/ graph_gen: https://github.com/xgillard/graph_gen");
        out.push(write_clique_problem_line(n, m).as_str());
        let ghost header = out@;
        let mut i: usize = 0;
        while i < m
            invariant
                out.wf(),
                i <= m,
                m == edges@.len(),
                edges@ == self@.edges,
                out@ =~= header + edge_lines(
                    self@.edges.take(i as int),
                    |e: Edge, w: isize| plain_edge_line(e),
                ),
            decreases m - i,
        {
            let (e, _w) = edges[i];
            out.push(write_plain_edge_line(e).as_str());
            i = i + 1;
        }
        assert(out@ =~= clique_dimacs_lines(self@));
        out.finish()
    }
}

} // verus!
