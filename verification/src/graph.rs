//! The graph that a generator produces: a vertex count and weighted edges
//! with unique keys.

use crate::edge::{Edge, Vertex};
use crate::error::GenError;
use crate::model::{ErModel, ModelView};
use crate::random::sample_uniform;
use std::collections::HashSet;
use vstd::arithmetic::div_mod::lemma_fundamental_div_mod_converse;
use vstd::prelude::*;
use vstd::std_specs::hash::*;

verus! {

/// The number of the cell that the edge `e` occupies in the grid of all
/// ordered pairs of the vertices `1..=n`, counted row by row from zero.
pub open spec fn cell(n: nat, e: Edge) -> int {
    (e.src.id - 1) * n + (e.dst.id - 1)
}

/// The edge that occupies the cell number `x` of the grid on `n` vertices.
pub open spec fn edge_at(n: nat, x: nat) -> Edge {
    Edge {
        src: Vertex { id: (x / n + 1) as isize },
        dst: Vertex { id: (x % n + 1) as isize },
    }
}

/// The mathematical content of a [`Graph`]: its model, its vertex count and
/// its weighted edges in the order in which they were accepted.
pub struct GraphView {
    /// The model that the graph was generated from.
    pub model: ModelView,
    /// The number of vertices, which are numbered `1..=n`.
    pub n: nat,
    /// Each edge with its weight.
    pub edges: Seq<(Edge, isize)>,
}

impl GraphView {
    /// Whether both ends of `e` are vertices of the graph.
    pub open spec fn in_range(self, e: Edge) -> bool {
        1 <= e.src.id <= self.n && 1 <= e.dst.id <= self.n
    }

    /// Whether `e` is an edge of the graph.
    pub open spec fn holds(self, e: Edge) -> bool {
        exists|i: int| 0 <= i < self.edges.len() && (#[trigger] self.edges[i]).0 == e
    }

    /// Whether `e` is already there: as it stands or, in an undirected
    /// graph, the other way round.
    pub open spec fn taken(self, e: Edge) -> bool {
        self.holds(e) || (!self.model.digraph && self.holds(e.reversed()))
    }

    /// Whether a candidate edge is accepted into the graph: it joins two
    /// vertices of the graph, it is no self loop unless they are allowed,
    /// and it is not there yet.
    pub open spec fn admits(self, e: Edge) -> bool {
        &&& self.in_range(e)
        &&& self.model.self_loops || !e.self_loop()
        &&& !self.taken(e)
    }

    /// The graph with one more edge, of weight 1.
    pub open spec fn with_edge(self, e: Edge) -> GraphView {
        GraphView { edges: self.edges.push((e, 1isize)), ..self }
    }

    /// Whether this graph is `before` with each weight replaced by one of
    /// the candidates `from`: the same model, the same vertices and the
    /// same edges in the same order.
    pub open spec fn reweighed(self, before: GraphView, from: Seq<isize>) -> bool {
        &&& self.model == before.model
        &&& self.n == before.n
        &&& self.edges.len() == before.edges.len()
        &&& forall|i: int|
            0 <= i < self.edges.len() ==> (#[trigger] self.edges[i]).0 == before.edges[i].0
                && from.contains(self.edges[i].1)
    }

    /// What every graph satisfies: the model is valid; each edge joins two
    /// vertices of the graph; there is no self loop unless the model allows
    /// them; no edge occurs twice; and in an undirected graph no two edges
    /// are each other's reverse.
    pub open spec fn well_formed(self) -> bool {
        &&& self.model.valid()
        &&& self.n == self.model.n
        &&& forall|i: int| 0 <= i < self.edges.len() ==> self.in_range((#[trigger] self.edges[i]).0)
        &&& !self.model.self_loops ==> forall|i: int|
            0 <= i < self.edges.len() ==> !(#[trigger] self.edges[i]).0.self_loop()
        &&& forall|i: int, j: int|
            0 <= i < j < self.edges.len() ==> (#[trigger] self.edges[i]).0 != (
            #[trigger] self.edges[j]).0
        &&& !self.model.digraph ==> forall|i: int, j: int|
            0 <= i < self.edges.len() && 0 <= j < self.edges.len() && i != j ==> (
            #[trigger] self.edges[i]).0 != (#[trigger] self.edges[j]).0.reversed()
    }
}

/// An undirected graph never holds an edge between two distinct vertices
/// together with its reverse.
pub proof fn undirected_graph_holds_no_edge_both_ways(g: GraphView, a: Vertex, b: Vertex)
    requires
        g.well_formed(),
        !g.model.digraph,
        a != b,
    ensures
        !(g.holds(Edge { src: a, dst: b }) && g.holds(Edge { src: b, dst: a })),
{
    let e = Edge { src: a, dst: b };
    if g.holds(e) && g.holds(e.reversed()) {
        let i = choose|i: int| 0 <= i < g.edges.len() && (#[trigger] g.edges[i]).0 == e;
        let j = choose|j: int|
            0 <= j < g.edges.len() && (#[trigger] g.edges[j]).0 == e.reversed();
        assert(g.edges[i].0 == g.edges[j].0.reversed());
    }
}

/// Where self loops are not allowed, no edge of a graph joins a vertex to
/// itself.
pub proof fn graph_holds_no_self_loop_unless_allowed(g: GraphView, e: Edge)
    requires
        g.well_formed(),
        !g.model.self_loops,
        g.holds(e),
    ensures
        e.src != e.dst,
{
    let i = choose|i: int| 0 <= i < g.edges.len() && (#[trigger] g.edges[i]).0 == e;
    assert(!g.edges[i].0.self_loop());
}

/// Both ends of every edge of a graph are among its vertices `1..=n`.
pub proof fn graph_holds_edges_of_its_vertices(g: GraphView, e: Edge)
    requires
        g.well_formed(),
        g.holds(e),
    ensures
        1 <= e.src.id <= g.n,
        1 <= e.dst.id <= g.n,
{
    let i = choose|i: int| 0 <= i < g.edges.len() && (#[trigger] g.edges[i]).0 == e;
    assert(g.in_range(g.edges[i].0));
}

/// Picking new weights changes neither the number of edges nor which edges
/// there are, and every weight is then one of the candidates.
pub proof fn reweighing_keeps_the_edges(after: GraphView, before: GraphView, from: Seq<isize>)
    requires
        after.reweighed(before, from),
    ensures
        after.edges.len() == before.edges.len(),
        forall|e: Edge| after.holds(e) <==> before.holds(e),
        forall|i: int| 0 <= i < after.edges.len() ==> from.contains((#[trigger] after.edges[i]).1),
{
    assert forall|e: Edge| after.holds(e) <==> before.holds(e) by {
        if after.holds(e) {
            let i = choose|i: int| 0 <= i < after.edges.len() && (#[trigger] after.edges[i]).0 == e;
            assert(before.edges[i].0 == e);
        }
        if before.holds(e) {
            let i = choose|i: int|
                0 <= i < before.edges.len() && (#[trigger] before.edges[i]).0 == e;
            assert(after.edges[i].0 == e);
        }
    }
}

/// Two edges on the vertices `1..=n` that occupy the same cell are equal.
pub proof fn lemma_cell_injective(n: nat, a: Edge, b: Edge)
    requires
        1 <= a.src.id <= n,
        1 <= a.dst.id <= n,
        1 <= b.src.id <= n,
        1 <= b.dst.id <= n,
        cell(n, a) == cell(n, b),
    ensures
        a == b,
{
    let x = cell(n, a);
    lemma_fundamental_div_mod_converse(x, n as int, a.src.id - 1, a.dst.id - 1);
    lemma_fundamental_div_mod_converse(x, n as int, b.src.id - 1, b.dst.id - 1);
}

/// A cell of the grid and the edge that occupies it determine each other.
pub proof fn lemma_cell_of_edge_at(n: nat, x: nat)
    requires
        0 < n <= isize::MAX,
        x < n * n,
    ensures
        x / n < n,
        x % n < n,
        1 <= edge_at(n, x).src.id <= n,
        1 <= edge_at(n, x).dst.id <= n,
        cell(n, edge_at(n, x)) == x,
{
    let q = x as int / n as int;
    let r = x as int % n as int;
    assert(x == q * n + r && 0 <= r < n && 0 <= q) by (nonlinear_arith)
        requires
            0 < n,
            0 <= x,
            q == x as int / n as int,
            r == x as int % n as int,
    ;
    assert(q < n) by (nonlinear_arith)
        requires
            x == q * n + r,
            0 <= r,
            x < n * n,
            0 < n,
    ;
}

/// A graph stays well formed when only its weights change.
pub proof fn lemma_weights_do_not_matter(before: GraphView, after: GraphView)
    requires
        before.well_formed(),
        after.model == before.model,
        after.n == before.n,
        after.edges.len() == before.edges.len(),
        forall|i: int|
            0 <= i < after.edges.len() ==> (#[trigger] after.edges[i]).0 == before.edges[i].0,
    ensures
        after.well_formed(),
{
    assert forall|i: int| 0 <= i < after.edges.len() implies after.in_range(
        (#[trigger] after.edges[i]).0,
    ) by {
        assert(before.in_range(before.edges[i].0));
    }
    if !after.model.self_loops {
        assert forall|i: int| 0 <= i < after.edges.len() implies !(
        #[trigger] after.edges[i]).0.self_loop() by {
            assert(!before.edges[i].0.self_loop());
        }
    }
    assert forall|i: int, j: int| 0 <= i < j < after.edges.len() implies (
    #[trigger] after.edges[i]).0 != (#[trigger] after.edges[j]).0 by {
        assert(before.edges[i].0 != before.edges[j].0);
    }
    if !after.model.digraph {
        assert forall|i: int, j: int|
            0 <= i < after.edges.len() && 0 <= j < after.edges.len() && i != j implies (
        #[trigger] after.edges[i]).0 != (#[trigger] after.edges[j]).0.reversed() by {
            assert(before.edges[i].0 != before.edges[j].0.reversed());
        }
    }
}

/// A graph as can be random generated.
#[derive(Debug)]
pub struct Graph {
    /// The model that the graph was generated from.
    model: ErModel,
    /// The number of vertices.
    n: usize,
    /// The edges with their weights, in the order of their acceptance.
    list: Vec<(Edge, isize)>,
    /// The cells of the edges in `list`, to find an edge again quickly.
    seen: HashSet<u128>,
}

impl View for Graph {
    type V = GraphView;

    closed spec fn view(&self) -> GraphView {
        GraphView { model: self.model@, n: self.n as nat, edges: self.list@ }
    }
}

impl Graph {
    /// Whether the private index of cells agrees with the edges.
    pub closed spec fn indexed(&self) -> bool {
        forall|k: u128|
            self.seen@.contains(k) <==> exists|i: int|
                0 <= i < self.list@.len() && cell(self.n as nat, (#[trigger] self.list@[i]).0)
                    == k
    }

    /// The invariant of the type.
    pub open spec fn wf(&self) -> bool {
        self@.well_formed() && self.indexed()
    }

    /// The graph on the vertices of `model` that has no edge yet.
    pub fn empty(model: ErModel) -> (g: Graph)
        requires
            model@.valid(),
        ensures
            g.wf(),
            g@ == (GraphView { model: model@, n: model@.n, edges: Seq::empty() }),
    {
        Graph { model, n: model.n(), list: Vec::new(), seen: HashSet::new() }
    }

    /// The cell of an edge between two vertices of the graph.
    fn cell_of(&self, e: Edge) -> (k: u128)
        requires
            self@.well_formed(),
            self@.in_range(e),
        ensures
            k == cell(self@.n, e),
    {
        let row: u128 = (e.src.id - 1) as u128;
        let col: u128 = (e.dst.id - 1) as u128;
        let n: u128 = self.n as u128;
        assert(row * n + col <= u128::MAX) by (nonlinear_arith)
            requires
                row <= 0xffff_ffff_ffff_ffff,
                n <= 0xffff_ffff_ffff_ffff,
                col <= 0xffff_ffff_ffff_ffff,
        ;
        row * n + col
    }

    /// Whether the index holds the cell `k` exactly when the graph holds the
    /// edge `e` of that cell.
    proof fn lemma_seen_is_held(&self, e: Edge, k: u128)
        requires
            self.wf(),
            self@.in_range(e),
            k == cell(self@.n, e),
        ensures
            self.seen@.contains(k) <==> self@.holds(e),
    {
        if self.seen@.contains(k) {
            let i = choose|i: int|
                0 <= i < self.list@.len() && cell(self.n as nat, (#[trigger] self.list@[i]).0)
                    == k;
            assert(self@.in_range(self@.edges[i].0));
            lemma_cell_injective(self.n as nat, self.list@[i].0, e);
        }
        if self@.holds(e) {
            let i = choose|i: int| 0 <= i < self@.edges.len() && (#[trigger] self@.edges[i]).0 == e;
            assert(cell(self.n as nat, self.list@[i].0) == k);
        }
    }

    /// Offers a candidate edge to the graph. The edge is accepted, with the
    /// weight 1, when the graph admits it; else the graph stays as it is.
    pub fn offer(&mut self, edge: Edge) -> (accepted: bool)
        requires
            old(self).wf(),
        ensures
            final(self).wf(),
            accepted == old(self)@.admits(edge),
            final(self)@ == if accepted {
                old(self)@.with_edge(edge)
            } else {
                old(self)@
            },
    {
        broadcast use group_hash_axioms;

        let n = self.n;
        if edge.src.id < 1 || edge.dst.id < 1 || edge.src.id as usize > n || edge.dst.id as usize
            > n {
            return false;
        }
        if edge.is_self_loop() && !self.model.allows_self_loops() {
            return false;
        }
        let k = self.cell_of(edge);
        proof {
            self.lemma_seen_is_held(edge, k);
        }
        if self.seen.contains(&k) {
            return false;
        }
        if !self.model.is_digraph() {
            let back = self.cell_of(edge.rev());
            proof {
                self.lemma_seen_is_held(edge.reversed(), back);
            }
            if self.seen.contains(&back) {
                return false;
            }
        }
        self.list.push((edge, 1));
        self.seen.insert(k);
        proof {
            let before = old(self)@;
            let after = self@;
            let last = before.edges.len() as int;
            assert forall|i: int, j: int| 0 <= i < j < after.edges.len() implies (
            #[trigger] after.edges[i]).0 != (#[trigger] after.edges[j]).0 by {
                if j == last {
                    assert(before.edges[i].0 != edge);
                }
            }
            if !after.model.digraph {
                assert forall|i: int, j: int|
                    0 <= i < after.edges.len() && 0 <= j < after.edges.len() && i != j implies (
                #[trigger] after.edges[i]).0 != (#[trigger] after.edges[j]).0.reversed() by {
                    if i == last {
                        assert(before.edges[j].0 != edge.reversed());
                    } else if j == last {
                        assert(before.edges[i].0 != edge.reversed());
                    }
                }
            }
            assert forall|c: u128| self.seen@.contains(c) <==> exists|i: int|
                0 <= i < self.list@.len() && cell(self.n as nat, (#[trigger] self.list@[i]).0)
                    == c by {
                if c == k {
                    assert(cell(self.n as nat, self.list@[last].0) == c);
                } else if old(self).seen@.contains(c) {
                    let i = choose|i: int|
                        0 <= i < old(self).list@.len() && cell(
                            self.n as nat,
                            (#[trigger] old(self).list@[i]).0,
                        ) == c;
                    assert(cell(self.n as nat, self.list@[i].0) == c);
                } else if exists|i: int|
                    0 <= i < self.list@.len() && cell(self.n as nat, (#[trigger] self.list@[i]).0)
                        == c {
                    let i = choose|i: int|
                        0 <= i < self.list@.len() && cell(
                            self.n as nat,
                            (#[trigger] self.list@[i]).0,
                        ) == c;
                    assert(i != last);
                    assert(cell(self.n as nat, old(self).list@[i].0) == c);
                }
            }
        }
        true
    }

    /// Replaces the weight of every edge by one of the candidates `from`,
    /// each picked uniformly at random and independently of the others.
    /// The edges themselves stay as they are. With no candidate to pick
    /// from, nothing is changed and the request is turned down.
    pub fn pluck_random_weights(&mut self, from: &[isize]) -> (r: Result<(), GenError>)
        requires
            old(self).wf(),
        ensures
            final(self).wf(),
            match r {
                Ok(_) => from@.len() > 0 && final(self)@.reweighed(old(self)@, from@),
                Err(e) => e == GenError::NoWeightCandidates && from@.len() == 0 && final(self)@
                    == old(self)@,
            },
    {
        if from.len() == 0 {
            return Err(GenError::NoWeightCandidates);
        }
        let mut rng = rand::thread_rng();
        let candidates: u128 = from.len() as u128;
        let mut i: usize = 0;
        while i < self.list.len()
            invariant
                0 < candidates == from@.len(),
                i <= self.list@.len(),
                old(self).wf(),
                self.model == old(self).model,
                self.n == old(self).n,
                self.seen == old(self).seen,
                self.list@.len() == old(self).list@.len(),
                forall|j: int|
                    0 <= j < self.list@.len() ==> (#[trigger] self.list@[j]).0 == old(
                        self,
                    ).list@[j].0,
                forall|j: int| 0 <= j < i ==> from@.contains((#[trigger] self.list@[j]).1),
            decreases self.list@.len() - i,
        {
            let k: usize = sample_uniform(&mut rng, 0, candidates) as usize;
            let edge = self.list[i].0;
            let weight = from[k];
            self.list.set(i, (edge, weight));
            i = i + 1;
        }
        proof {
            lemma_weights_do_not_matter(old(self)@, self@);
            assert forall|k: u128| self.seen@.contains(k) <==> exists|i: int|
                0 <= i < self.list@.len() && cell(self.n as nat, (#[trigger] self.list@[i]).0)
                    == k by {
                if self.seen@.contains(k) {
                    let i = choose|i: int|
                        0 <= i < old(self).list@.len() && cell(
                            self.n as nat,
                            (#[trigger] old(self).list@[i]).0,
                        ) == k;
                    assert(cell(self.n as nat, self.list@[i].0) == k);
                }
                if exists|i: int|
                    0 <= i < self.list@.len() && cell(self.n as nat, (#[trigger] self.list@[i]).0)
                        == k {
                    let i = choose|i: int|
                        0 <= i < self.list@.len() && cell(
                            self.n as nat,
                            (#[trigger] self.list@[i]).0,
                        ) == k;
                    assert(cell(self.n as nat, old(self).list@[i].0) == k);
                }
            }
        }
        Ok(())
    }

    /// The number of vertices.
    pub fn nb_vertices(&self) -> (n: usize)
        ensures
            n == self@.n,
    {
        self.n
    }

    /// The number of edges.
    pub fn nb_edges(&self) -> (m: usize)
        ensures
            m == self@.edges.len(),
    {
        self.list.len()
    }

    /// The model that the graph was generated from.
    pub fn model(&self) -> (model: ErModel)
        ensures
            model@ == self@.model,
    {
        self.model
    }

    /// The edges with their weights.
    pub fn edges(&self) -> (list: &Vec<(Edge, isize)>)
        ensures
            list@ == self@.edges,
    {
        &self.list
    }
}

} // verus!
