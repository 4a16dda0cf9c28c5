//! The lines of the two exchange formats: the DIMACS family of problem
//! files, and the graph-drawing text of GraphViz.

use crate::edge::{Edge, Vertex};
use crate::graph::GraphView;
use crate::model::{ErModel, ModelView};
use crate::text::{
    after_first_field, append_signed, append_unsigned, decimal, first_field, integer_of,
    lemma_first_of_fields, lemma_integer_of_decimal, lemma_only_field,
};
use vstd::prelude::*;
use vstd::string::*;

verus! {

/// The word for the kind of graph.
pub open spec fn kind_word(digraph: bool) -> Seq<char> {
    if digraph {
        "digraph"@
    } else {
        "graph"@
    }
}

/// The connector between the two ends of an edge in a drawing.
pub open spec fn connector(digraph: bool) -> Seq<char> {
    if digraph {
        "->"@
    } else {
        "--"@
    }
}

/// What stands before "allow self loops" in a comment.
pub open spec fn loops_word(self_loops: bool) -> Seq<char> {
    if self_loops {
        ""@
    } else {
        " NOT"@
    }
}

/// The literal that a vertex of a graph on `n` vertices denotes, `n` being
/// twice the number of Boolean variables: a vertex of the lower half is the
/// positive literal of its own number; a vertex `id` of the upper half,
/// that is with `id > n / 2`, is the negated literal of the variable
/// `id / 2`.
pub open spec fn literal_of(n: nat, id: int) -> int {
    if id > n / 2 {
        -(id / 2)
    } else {
        id
    }
}

/// The comment that names the model of a graph.
pub open spec fn model_comment(m: ModelView) -> Seq<char> {
    "c Pseudo-random Erdos-Renyi "@ + kind_word(m.digraph) + " G("@ + decimal(m.n as int) + ", "@
        + decimal(m.p.num as int) + "/"@ + decimal(m.p.den as int) + ")"@
}

/// The comment that names the model of a max2sat instance.
pub open spec fn sat_model_comment(m: ModelView) -> Seq<char> {
    "c Pseudo-random max2sat instance generated w/ Erdos-Renyi G("@ + decimal(m.n as int) + ", "@
        + decimal(m.p.num as int) + "/"@ + decimal(m.p.den as int) + ") model"@
}

/// The comment that tells whether self loops were allowed.
pub open spec fn loops_comment(self_loops: bool) -> Seq<char> {
    "c it was generated to"@ + loops_word(self_loops) + " allow self loops"@
}

/// The comment that gives the size of a graph.
pub open spec fn size_comment(n: nat, m: nat) -> Seq<char> {
    "c This graph has "@ + decimal(n as int) + " vertices and "@ + decimal(m as int) + " edges"@
}

/// The comment that gives the size of a max2sat instance.
pub open spec fn sat_size_comment(vars: nat, clauses: nat) -> Seq<char> {
    "c This instance has "@ + decimal(vars as int) + " variables and "@ + decimal(clauses as int)
        + " clauses"@
}

/// The comment that says that the edges bear no weight.
pub open spec fn unweighted_comment() -> Seq<char> {
    "c The edges of this graph are UNWEIGHTED"@
}

/// The comment that explains a clause.
pub open spec fn clause_comment() -> Seq<char> {
    "c Each clause reads <weight> <source> <dest> 0"@
}

/// The comment that draws a rule.
pub open spec fn rule_comment() -> Seq<char> {
    "c -------------------------------------------------------------"@
}

/// The comment that names the tool.
pub open spec fn credit_comment() -> Seq<char> {
    "c Generated w/ graph_gen: https://github.com/xgillard/graph_gen"@
}

/// The problem line of a weighted graph: `<n> <m>`.
pub open spec fn graph_problem_line(n: nat, m: nat) -> Seq<char> {
    decimal(n as int) + " "@ + decimal(m as int)
}

/// The problem line of a clique instance: `p edge <n> <m>`.
pub open spec fn clique_problem_line(n: nat, m: nat) -> Seq<char> {
    "p edge "@ + decimal(n as int) + " "@ + decimal(m as int)
}

/// The problem line of a max2sat instance: `p wcnf <n_vars> <n_clauses>`.
pub open spec fn sat_problem_line(vars: nat, clauses: nat) -> Seq<char> {
    "p wcnf "@ + decimal(vars as int) + " "@ + decimal(clauses as int)
}

/// The line of a weighted edge: `<src> <dst> <weight>`.
pub open spec fn weighted_edge_line(e: Edge, w: isize) -> Seq<char> {
    decimal(e.src.id as int) + " "@ + decimal(e.dst.id as int) + " "@ + decimal(w as int)
}

/// The line of an edge without its weight: `e <src> <dst>`.
pub open spec fn plain_edge_line(e: Edge) -> Seq<char> {
    "e "@ + decimal(e.src.id as int) + " "@ + decimal(e.dst.id as int)
}

/// The line of a clause: `<weight> <lit1> <lit2> 0`.
pub open spec fn clause_line(n: nat, e: Edge, w: isize) -> Seq<char> {
    decimal(w as int) + " "@ + decimal(literal_of(n, e.src.id as int)) + " "@ + decimal(
        literal_of(n, e.dst.id as int),
    ) + " 0"@
}

/// The line that opens the drawing of a graph.
pub open spec fn drawing_open(digraph: bool) -> Seq<char> {
    kind_word(digraph) + " g {"@
}

/// The line that opens the drawing of a max2sat instance.
pub open spec fn sat_drawing_open() -> Seq<char> {
    "graph wcnf {"@
}

/// The line that closes a drawing.
pub open spec fn drawing_close() -> Seq<char> {
    "}"@
}

/// The statement of a vertex in a drawing.
pub open spec fn vertex_stmt(v: int) -> Seq<char> {
    "  "@ + decimal(v) + ";"@
}

/// The statement of an edge in a drawing, labelled with its weight.
pub open spec fn edge_stmt(digraph: bool, e: Edge, w: isize) -> Seq<char> {
    "  "@ + decimal(e.src.id as int) + " "@ + connector(digraph) + " "@ + decimal(e.dst.id as int)
        + " [label="@ + decimal(w as int) + "];"@
}

/// The statement of a clause in a drawing, labelled with its weight.
pub open spec fn clause_stmt(n: nat, e: Edge, w: isize) -> Seq<char> {
    "  "@ + decimal(literal_of(n, e.src.id as int)) + " -- "@ + decimal(
        literal_of(n, e.dst.id as int),
    ) + " [label="@ + decimal(w as int) + "];"@
}

/// The statements of the vertices `1..=n`.
pub open spec fn vertex_stmts(n: nat) -> Seq<Seq<char>> {
    Seq::new(n, |i: int| vertex_stmt(i + 1))
}

/// One line for each edge, as `render` writes it.
pub open spec fn edge_lines(
    edges: Seq<(Edge, isize)>,
    render: spec_fn(Edge, isize) -> Seq<char>,
) -> Seq<Seq<char>> {
    Seq::new(edges.len(), |i: int| render(edges[i].0, edges[i].1))
}

/// The lines of a graph in the weighted graph format: comments, the
/// problem line, then one line for each edge.
pub open spec fn graph_dimacs_lines(g: GraphView) -> Seq<Seq<char>> {
    seq![
        model_comment(g.model),
        loops_comment(g.model.self_loops),
        size_comment(g.n, g.edges.len()),
        rule_comment(),
        credit_comment(),
        graph_problem_line(g.n, g.edges.len()),
    ] + edge_lines(g.edges, |e: Edge, w: isize| weighted_edge_line(e, w))
}

/// The lines of the drawing of a graph: one statement for each vertex, then
/// one for each edge.
pub open spec fn graph_dot_lines(g: GraphView) -> Seq<Seq<char>> {
    seq![drawing_open(g.model.digraph)] + vertex_stmts(g.n) + edge_lines(
        g.edges,
        |e: Edge, w: isize| edge_stmt(g.model.digraph, e, w),
    ) + seq![drawing_close()]
}

/// The lines of a graph as a clique instance: the weights are left out.
pub open spec fn clique_dimacs_lines(g: GraphView) -> Seq<Seq<char>> {
    seq![
        model_comment(g.model),
        loops_comment(g.model.self_loops),
        size_comment(g.n, g.edges.len()),
        unweighted_comment(),
        rule_comment(),
        credit_comment(),
        clique_problem_line(g.n, g.edges.len()),
    ] + edge_lines(g.edges, |e: Edge, w: isize| plain_edge_line(e))
}

/// The lines of a graph as a weighted max2sat instance over half as many
/// variables as the graph has vertices: one clause for each edge.
pub open spec fn sat_dimacs_lines(g: GraphView) -> Seq<Seq<char>> {
    seq![
        sat_model_comment(g.model),
        loops_comment(g.model.self_loops),
        sat_size_comment(g.n / 2, g.edges.len()),
        rule_comment(),
        clause_comment(),
        rule_comment(),
        credit_comment(),
        sat_problem_line(g.n / 2, g.edges.len()),
    ] + edge_lines(g.edges, |e: Edge, w: isize| clause_line(g.n, e, w))
}

/// The lines of the drawing of a max2sat instance: one statement for each
/// variable, then one for each clause.
pub open spec fn sat_dot_lines(g: GraphView) -> Seq<Seq<char>> {
    seq![sat_drawing_open()] + vertex_stmts(g.n / 2) + edge_lines(
        g.edges,
        |e: Edge, w: isize| clause_stmt(g.n, e, w),
    ) + seq![drawing_close()]
}

/// The three fields of the line of a weighted edge read back as the two
/// ends of the edge and its weight.
pub proof fn lemma_weighted_edge_line_reads_back(e: Edge, w: isize)
    ensures
        integer_of(first_field(weighted_edge_line(e, w))) == e.src.id,
        integer_of(first_field(after_first_field(weighted_edge_line(e, w)))) == e.dst.id,
        integer_of(first_field(after_first_field(after_first_field(weighted_edge_line(e, w)))))
            == w,
{
    reveal_strlit(" ");
    let src = decimal(e.src.id as int);
    let dst = decimal(e.dst.id as int);
    let weight = decimal(w as int);
    let blank = seq![' '];
    lemma_integer_of_decimal(e.src.id as int);
    lemma_integer_of_decimal(e.dst.id as int);
    lemma_integer_of_decimal(w as int);
    let line = weighted_edge_line(e, w);
    let tail = dst + blank + weight;
    assert(line =~= src + blank + tail);
    lemma_first_of_fields(src, tail);
    lemma_first_of_fields(dst, weight);
    lemma_only_field(weight);
}

/// In the weighted graph format, the lines of the edges follow the six
/// lines of the header, and the two vertices that the line of an edge
/// reads back as are vertices of the graph: they lie within `1..=n`.
pub proof fn edge_lines_name_vertices_of_the_graph(g: GraphView, i: int)
    requires
        g.well_formed(),
        0 <= i < g.edges.len(),
    ensures
        graph_dimacs_lines(g).len() == 6 + g.edges.len(),
        graph_dimacs_lines(g)[6 + i] == weighted_edge_line(g.edges[i].0, g.edges[i].1),
        1 <= integer_of(first_field(graph_dimacs_lines(g)[6 + i])) <= g.n,
        1 <= integer_of(first_field(after_first_field(graph_dimacs_lines(g)[6 + i]))) <= g.n,
{
    lemma_weighted_edge_line_reads_back(g.edges[i].0, g.edges[i].1);
}

pub(crate) fn kind_str(digraph: bool) -> (s: &'static str)
    ensures
        s@ == kind_word(digraph),
{
    if digraph {
        "digraph"
    } else {
        "graph"
    }
}

pub(crate) fn connector_str(digraph: bool) -> (s: &'static str)
    ensures
        s@ == connector(digraph),
{
    if digraph {
        "->"
    } else {
        "--"
    }
}

pub(crate) fn loops_str(self_loops: bool) -> (s: &'static str)
    ensures
        s@ == loops_word(self_loops),
{
    if self_loops {
        ""
    } else {
        " NOT"
    }
}

/// The literal that the vertex `v` denotes in an instance whose graph has
/// `n` vertices.
pub fn literal(n: usize, v: Vertex) -> (lit: isize)
    ensures
        lit == literal_of(n as nat, v.id as int),
{
    let half: isize = (n / 2) as isize;
    if v.id > half {
        -(v.id / 2)
    } else {
        v.id
    }
}

pub(crate) fn write_model_comment(m: ErModel) -> (s: String)
    ensures
        s@ == model_comment(m@),
{
    let mut s = String::from_str("c Pseudo-random Erdos-Renyi ");
    s.append(kind_str(m.is_digraph()));
    s.append(" G(");
    append_unsigned(&mut s, m.n() as u128);
    s.append(", ");
    append_unsigned(&mut s, m.p().num as u128);
    s.append("/");
    append_unsigned(&mut s, m.p().den as u128);
    s.append(")");
    s
}

pub(crate) fn write_sat_model_comment(m: ErModel) -> (s: String)
    ensures
        s@ == sat_model_comment(m@),
{
    let mut s = String::from_str("c Pseudo-random max2sat instance generated w/ Erdos-Renyi G(");
    append_unsigned(&mut s, m.n() as u128);
    s.append(", ");
    append_unsigned(&mut s, m.p().num as u128);
    s.append("/");
    append_unsigned(&mut s, m.p().den as u128);
    s.append(") model");
    s
}

pub(crate) fn write_loops_comment(self_loops: bool) -> (s: String)
    ensures
        s@ == loops_comment(self_loops),
{
    let mut s = String::from_str("c it was generated to");
    s.append(loops_str(self_loops));
    s.append(" allow self loops");
    s
}

pub(crate) fn write_size_comment(n: usize, m: usize) -> (s: String)
    ensures
        s@ == size_comment(n as nat, m as nat),
{
    let mut s = String::from_str("c This graph has ");
    append_unsigned(&mut s, n as u128);
    s.append(" vertices and ");
    append_unsigned(&mut s, m as u128);
    s.append(" edges");
    s
}

pub(crate) fn write_sat_size_comment(vars: usize, clauses: usize) -> (s: String)
    ensures
        s@ == sat_size_comment(vars as nat, clauses as nat),
{
    let mut s = String::from_str("c This instance has ");
    append_unsigned(&mut s, vars as u128);
    s.append(" variables and ");
    append_unsigned(&mut s, clauses as u128);
    s.append(" clauses");
    s
}

pub(crate) fn write_graph_problem_line(n: usize, m: usize) -> (s: String)
    ensures
        s@ == graph_problem_line(n as nat, m as nat),
{
    let mut s = String::new();
    append_unsigned(&mut s, n as u128);
    s.append(" ");
    append_unsigned(&mut s, m as u128);
    s
}

pub(crate) fn write_clique_problem_line(n: usize, m: usize) -> (s: String)
    ensures
        s@ == clique_problem_line(n as nat, m as nat),
{
    let mut s = String::from_str("p edge ");
    append_unsigned(&mut s, n as u128);
    s.append(" ");
    append_unsigned(&mut s, m as u128);
    s
}

pub(crate) fn write_sat_problem_line(vars: usize, clauses: usize) -> (s: String)
    ensures
        s@ == sat_problem_line(vars as nat, clauses as nat),
{
    let mut s = String::from_str("p wcnf ");
    append_unsigned(&mut s, vars as u128);
    s.append(" ");
    append_unsigned(&mut s, clauses as u128);
    s
}

pub(crate) fn write_weighted_edge_line(e: Edge, w: isize) -> (s: String)
    ensures
        s@ == weighted_edge_line(e, w),
{
    let mut s = String::new();
    append_signed(&mut s, e.src.id);
    s.append(" ");
    append_signed(&mut s, e.dst.id);
    s.append(" ");
    append_signed(&mut s, w);
    s
}

pub(crate) fn write_plain_edge_line(e: Edge) -> (s: String)
    ensures
        s@ == plain_edge_line(e),
{
    let mut s = String::from_str("e ");
    append_signed(&mut s, e.src.id);
    s.append(" ");
    append_signed(&mut s, e.dst.id);
    s
}

pub(crate) fn write_clause_line(n: usize, e: Edge, w: isize) -> (s: String)
    ensures
        s@ == clause_line(n as nat, e, w),
{
    let mut s = String::new();
    append_signed(&mut s, w);
    s.append(" ");
    append_signed(&mut s, literal(n, e.src));
    s.append(" ");
    append_signed(&mut s, literal(n, e.dst));
    s.append(" 0");
    s
}

pub(crate) fn write_drawing_open(digraph: bool) -> (s: String)
    ensures
        s@ == drawing_open(digraph),
{
    let mut s = String::from_str(kind_str(digraph));
    s.append(" g {");
    s
}

pub(crate) fn write_vertex_stmt(v: usize) -> (s: String)
    ensures
        s@ == vertex_stmt(v as int),
{
    let mut s = String::from_str("  ");
    append_unsigned(&mut s, v as u128);
    s.append(";");
    s
}

pub(crate) fn write_edge_stmt(digraph: bool, e: Edge, w: isize) -> (s: String)
    ensures
        s@ == edge_stmt(digraph, e, w),
{
    let mut s = String::from_str("  ");
    append_signed(&mut s, e.src.id);
    s.append(" ");
    s.append(connector_str(digraph));
    s.append(" ");
    append_signed(&mut s, e.dst.id);
    s.append(" [label=");
    append_signed(&mut s, w);
    s.append("];");
    s
}

pub(crate) fn write_clause_stmt(n: usize, e: Edge, w: isize) -> (s: String)
    ensures
        s@ == clause_stmt(n as nat, e, w),
{
    let mut s = String::from_str("  ");
    append_signed(&mut s, literal(n, e.src));
    s.append(" -- ");
    append_signed(&mut s, literal(n, e.dst));
    s.append(" [label=");
    append_signed(&mut s, w);
    s.append("];");
    s
}

} // verus!
