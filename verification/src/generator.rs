//! The sampler: it draws candidate edges one at a time and offers them to a
//! graph until the graph holds the wanted number of edges.

use crate::edge::{Edge, Vertex};
use crate::error::GenError;
use crate::graph::{edge_at, lemma_cell_of_edge_at, Graph};
use crate::model::{ErModel, ModelView};
use crate::random::sample_uniform;
use rand::rngs::ThreadRng;
use vstd::prelude::*;

verus! {

/// The graph generator using the ER model. It holds the model and a handle
/// on the random number generator, whose stream goes on from one graph to
/// the next.
#[derive(Debug)]
pub struct ErGenerator {
    /// The ER model.
    model: ErModel,
    /// The random number generator.
    rng: ThreadRng,
}

impl View for ErGenerator {
    type V = ModelView;

    closed spec fn view(&self) -> ModelView {
        self.model@
    }
}

/// What holds of a graph that a generator of the model `model` hands out:
/// it is a well formed graph of that model, it has exactly the number of
/// edges that the model asks for, and each edge weighs 1.
pub open spec fn generated(model: ModelView, g: Graph) -> bool {
    &&& g.wf()
    &&& g@.model == model
    &&& g@.n == model.n
    &&& g@.edges.len() == model.target_edge_count()
    &&& forall|i: int| 0 <= i < g@.edges.len() ==> (#[trigger] g@.edges[i]).1 == 1
}

impl ErGenerator {
    /// A generator for the given model, on the random number generator of
    /// the current thread.
    pub fn new(model: ErModel) -> (generator: ErGenerator)
        requires
            model@.valid(),
        ensures
            generator@ == model@,
    {
        ErGenerator { model, rng: rand::thread_rng() }
    }

    /// The candidate edge that stands for the number `x` drawn from
    /// `[0, n * n)`: the grid of all ordered pairs of vertices is numbered
    /// row by row, and the vertices from 1.
    pub fn edge_of(n: usize, x: u128) -> (e: Edge)
        requires
            0 < n <= isize::MAX,
            x < n * n,
        ensures
            e == edge_at(n as nat, x as nat),
            1 <= e.src.id <= n,
            1 <= e.dst.id <= n,
    {
        proof {
            lemma_cell_of_edge_at(n as nat, x as nat);
        }
        let src: isize = (x / (n as u128)) as isize;
        let dst: isize = (x % (n as u128)) as isize;
        Edge { src: Vertex { id: src + 1 }, dst: Vertex { id: dst + 1 } }
    }

    /// Draws one candidate edge, uniformly among all ordered pairs of
    /// vertices, whatever the options of the model.
    fn next_edge(&mut self) -> (e: Edge)
        requires
            old(self)@.valid(),
        ensures
            final(self)@ == old(self)@,
            1 <= e.src.id <= old(self)@.n,
            1 <= e.dst.id <= old(self)@.n,
    {
        let n = self.model.n();
        let side: u128 = n as u128;
        assert(side * side <= u128::MAX && 0 < side * side) by (nonlinear_arith)
            requires
                0 < side <= 0xffff_ffff_ffff_ffff,
        ;
        let number = sample_uniform(&mut self.rng, 0, side * side);
        ErGenerator::edge_of(n, number)
    }

    /// Generates a graph with at most `draws` random draws. Candidate
    /// edges are drawn and offered to the graph until it holds the wanted
    /// number of edges. When the allowance runs out before that, there is
    /// no graph.
    pub fn gen_within(&mut self, draws: u64) -> (r: Result<Graph, GenError>)
        requires
            old(self)@.valid(),
        ensures
            final(self)@ == old(self)@,
            match r {
                Ok(g) => generated(old(self)@, g),
                Err(e) => e == GenError::DrawsExhausted && old(self)@.target_edge_count() > 0,
            },
            old(self)@.target_edge_count() == 0 ==> r is Ok,
            draws < old(self)@.target_edge_count() ==> r is Err,
    {
        let mut g = Graph::empty(self.model);
        let nb_edges = self.model.nb_edges_to_pick();
        let mut left: u64 = draws;
        while g.nb_edges() < nb_edges && left > 0
            invariant
                self@ == old(self)@,
                self@.valid(),
                g.wf(),
                g@.model == self@,
                g@.n == self@.n,
                nb_edges == self@.target_edge_count(),
                g@.edges.len() <= nb_edges,
                g@.edges.len() + left <= draws,
                forall|i: int| 0 <= i < g@.edges.len() ==> (#[trigger] g@.edges[i]).1 == 1,
            decreases left,
        {
            left = left - 1;
            let edge = self.next_edge();
            g.offer(edge);
        }
        if g.nb_edges() == nb_edges {
            Ok(g)
        } else {
            Err(GenError::DrawsExhausted)
        }
    }

    /// Generates a graph. The number of draws that it takes is not bounded
    /// in advance, and it grows as the wanted number of edges comes close
    /// to the number of candidates; the generator gives up after
    /// `u64::MAX` draws.
    pub fn gen(&mut self) -> (r: Result<Graph, GenError>)
        requires
            old(self)@.valid(),
        ensures
            final(self)@ == old(self)@,
            match r {
                Ok(g) => generated(old(self)@, g),
                Err(e) => e == GenError::DrawsExhausted && old(self)@.target_edge_count() > 0,
            },
            old(self)@.target_edge_count() == 0 ==> r is Ok,
    {
        self.gen_within(u64::MAX)
    }

    /// The next graph of the unbounded sequence of graphs that the
    /// generator stands for, or nothing once a graph could not be had.
    pub fn next(&mut self) -> (r: Option<Graph>)
        requires
            old(self)@.valid(),
        ensures
            final(self)@ == old(self)@,
            r matches Some(g) ==> generated(old(self)@, g),
            old(self)@.target_edge_count() == 0 ==> r is Some,
    {
        match self.gen() {
            Ok(g) => Some(g),
            Err(_) => None,
        }
    }
}

} // verus!
