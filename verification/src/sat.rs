//! A graph read as a weighted max2sat instance.

use crate::edge::{Edge, Vertex};
use crate::encode::push_vertex_stmts;
use crate::formats::{
    clause_line, clause_stmt, edge_lines, literal, literal_of, sat_dimacs_lines, sat_dot_lines,
    write_clause_line, write_clause_stmt, write_loops_comment, write_sat_model_comment,
    write_sat_problem_line, write_sat_size_comment,
};
use crate::graph::{Graph, GraphView};
use crate::text::{join_lines, Lines};
use vstd::prelude::*;
use vstd::string::*;

verus! {

/// A graph on twice as many vertices as there are Boolean variables, each
/// vertex being read as a literal and each edge as a clause of two
/// literals, whose weight is that of the edge.
#[derive(Debug)]
pub struct Max2SatGraph {
    g: Graph,
}

impl View for Max2SatGraph {
    type V = GraphView;

    closed spec fn view(&self) -> GraphView {
        self.g@
    }
}

impl Max2SatGraph {
    /// The max2sat instance on the graph `g`.
    pub fn new(g: Graph) -> (sat: Max2SatGraph)
        ensures
            sat@ == g@,
    {
        Max2SatGraph { g }
    }

    /// The instance in the weighted clause format.
    pub fn to_dimacs(&self) -> (text: String)
        ensures
            text@ == join_lines(sat_dimacs_lines(self@)),
    {
        let model = self.g.model();
        let n = self.g.nb_vertices();
        let edges = self.g.edges();
        let m = edges.len();
        let mut out = Lines::new();
        out.push(write_sat_model_comment(model).as_str());
        out.push(write_loops_comment(model.allows_self_loops()).as_str());
        out.push(write_sat_size_comment(n / 2, m).as_str());
        out.push("c -------------------------------------------------------------");
        out.push("c Each clause reads <weight> <source> <dest> 0");
        out.push("c -------------------------------------------------------------");
        out.push("c Generated w/ graph_gen: https://github.com/xgillard/graph_gen");
        out.push(write_sat_problem_line(n / 2, m).as_str());
        let ghost header = out@;
        let mut i: usize = 0;
        while i < m
            invariant
                out.wf(),
                i <= m,
                m == edges@.len(),
                edges@ == self@.edges,
                n == self@.n,
                out@ =~= header + edge_lines(
                    self@.edges.take(i as int),
                    |e: Edge, w: isize| clause_line(self@.n, e, w),
                ),
            decreases m - i,
        {
            let (e, w) = edges[i];
            out.push(write_clause_line(n, e, w).as_str());
            i = i + 1;
        }
        assert(out@ =~= sat_dimacs_lines(self@));
        out.finish()
    }

    /// The instance as a drawing.
    pub fn to_dot(&self) -> (text: String)
        ensures
            text@ == join_lines(sat_dot_lines(self@)),
    {
        let n = self.g.nb_vertices();
        let edges = self.g.edges();
        let m = edges.len();
        let mut out = Lines::new();
        out.push("graph wcnf {");
        push_vertex_stmts(&mut out, n / 2);
        let ghost header = out@;
        let mut i: usize = 0;
        while i < m
            invariant
                out.wf(),
                i <= m,
                m == edges@.len(),
                edges@ == self@.edges,
                n == self@.n,
                out@ =~= header + edge_lines(
                    self@.edges.take(i as int),
                    |e: Edge, w: isize| clause_stmt(self@.n, e, w),
                ),
            decreases m - i,
        {
            let (e, w) = edges[i];
            out.push(write_clause_stmt(n, e, w).as_str());
            i = i + 1;
        }
        out.push("}");
        assert(out@ =~= sat_dot_lines(self@));
        out.finish()
    }

    /// The literal that the vertex `v` denotes in this instance.
    pub fn literal(&self, v: Vertex) -> (lit: isize)
        ensures
            lit == literal_of(self@.n, v.id as int),
    {
        literal(self.g.nb_vertices(), v)
    }
}

} // verus!
