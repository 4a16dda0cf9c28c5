//! The two renderings of a plain graph.

use crate::edge::Edge;
use crate::formats::{
    edge_lines, edge_stmt, graph_dimacs_lines, graph_dot_lines, vertex_stmts, weighted_edge_line,
    write_drawing_open, write_edge_stmt, write_graph_problem_line, write_loops_comment,
    write_model_comment, write_size_comment, write_vertex_stmt, write_weighted_edge_line,
};
use crate::graph::Graph;
use crate::text::{join_lines, Lines};
use vstd::prelude::*;
use vstd::string::*;

verus! {

/// Adds the statements of the vertices `1..=n` to a drawing.
pub(crate) fn push_vertex_stmts(out: &mut Lines, n: usize)
    requires
        old(out).wf(),
    ensures
        final(out).wf(),
        final(out)@ == old(out)@ + vertex_stmts(n as nat),
{
    let mut v: usize = 0;
    while v < n
        invariant
            out.wf(),
            v <= n,
            out@ =~= old(out)@ + vertex_stmts(v as nat),
        decreases n - v,
    {
        v = v + 1;
        out.push(write_vertex_stmt(v).as_str());
    }
}

impl Graph {
    /// The graph in the weighted graph format.
    pub fn to_dimacs(&self) -> (text: String)
        ensures
            text@ == join_lines(graph_dimacs_lines(self@)),
    {
        let model = self.model();
        let n = self.nb_vertices();
        let edges = self.edges();
        let m = edges.len();
        let mut out = Lines::new();
        out.push(write_model_comment(model).as_str());
        out.push(write_loops_comment(model.allows_self_loops()).as_str());
        out.push(write_size_comment(n, m).as_str());
        out.push("c -------------------------------------------------------------");
        out.push("c Generated w/ graph_gen: https://github.com/xgillard/graph_gen");
        out.push(write_graph_problem_line(n, m).as_str());
        let ghost header = out@;
        let mut i: usize = 0;
        while i < m
            invariant
                out.wf(),
                i <= m,
                m == edges@.len(),
                edges@ == self@.edges,
                out@ =~= header + edge_lines(
                    self@.edges.take(i as int),
                    |e: Edge, w: isize| weighted_edge_line(e, w),
                ),
            decreases m - i,
        {
            let (e, w) = edges[i];
            out.push(write_weighted_edge_line(e, w).as_str());
            i = i + 1;
        }
        assert(out@ =~= graph_dimacs_lines(self@));
        out.finish()
    }

    /// The graph as a drawing.
    pub fn to_dot(&self) -> (text: String)
        ensures
            text@ == join_lines(graph_dot_lines(self@)),
    {
        let digraph = self.model().is_digraph();
        let edges = self.edges();
        let m = edges.len();
        let mut out = Lines::new();
        out.push(write_drawing_open(digraph).as_str());
        push_vertex_stmts(&mut out, self.nb_vertices());
        let ghost header = out@;
        let mut i: usize = 0;
        while i < m
            invariant
                out.wf(),
                i <= m,
                m == edges@.len(),
                edges@ == self@.edges,
                digraph == self@.model.digraph,
                out@ =~= header + edge_lines(
                    self@.edges.take(i as int),
                    |e: Edge, w: isize| edge_stmt(self@.model.digraph, e, w),
                ),
            decreases m - i,
        {
            let (e, w) = edges[i];
            out.push(write_edge_stmt(digraph, e, w).as_str());
            i = i + 1;
        }
        out.push("}");
        assert(out@ =~= graph_dot_lines(self@));
        out.finish()
    }
}

} // verus!
