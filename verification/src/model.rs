//! The configuration of an Erdos-Renyi G(n, p) model and its combinatorics.

use crate::error::GenError;
use crate::generator::ErGenerator;
use vstd::arithmetic::div_mod::lemma_fundamental_div_mod_converse;
use vstd::prelude::*;

verus! {

/// An edge probability, held exactly as the ratio `num / den`.
#[derive(Debug, Clone, Copy, PartialEq, Eq, Structural)]
pub struct Probability {
    /// The numerator.
    pub num: u64,
    /// The denominator.
    pub den: u64,
}

impl Probability {
    /// Whether the ratio is a real number of `[0, 1]`.
    pub open spec fn in_unit_interval(self) -> bool {
        0 < self.den && self.num <= self.den
    }

    /// Whether this probability is at most `other`, both denominators being
    /// positive.
    pub open spec fn at_most(self, other: Probability) -> bool {
        self.num * other.den <= other.num * self.den
    }

    /// The ratio `num / den`.
    pub fn new(num: u64, den: u64) -> (p: Probability)
        ensures
            p.num == num,
            p.den == den,
    {
        Probability { num, den }
    }
}

/// The size of the space of candidate edges on `n` vertices. An undirected
/// graph counts each pair once; with self loops allowed and `n` odd the
/// halving truncates.
pub open spec fn possible_edges(n: nat, digraph: bool, self_loops: bool) -> nat {
    let dests: nat = if self_loops {
        n
    } else {
        (n - 1) as nat
    };
    if digraph {
        n * dests
    } else {
        (n * dests) / 2
    }
}

/// `count * num / den` rounded to the nearest integer, a half being rounded
/// away from zero.
pub open spec fn scaled(num: nat, den: nat, count: nat) -> nat {
    ((2 * num * count + den) / (2 * den)) as nat
}

/// The mathematical content of an [`ErModel`].
pub struct ModelView {
    /// Number of vertices in the generated graphs.
    pub n: nat,
    /// Likelihood of any edge to be generated.
    pub p: Probability,
    /// Whether the generated graphs are directed.
    pub digraph: bool,
    /// Whether an edge may join a vertex to itself.
    pub self_loops: bool,
}

impl ModelView {
    /// The number of edges of the full mesh.
    pub open spec fn possible_edge_count(self) -> nat {
        possible_edges(self.n, self.digraph, self.self_loops)
    }

    /// The exact number of distinct edges that a generated graph holds.
    pub open spec fn target_edge_count(self) -> nat {
        scaled(self.p.num as nat, self.p.den as nat, self.possible_edge_count())
    }

    /// The reason for which this configuration is turned down, if any. The
    /// vertex count is looked at first, then the probability, then the size.
    pub open spec fn rejection(self) -> Option<GenError> {
        if self.n == 0 || (self.n == 1 && !self.self_loops) {
            Some(GenError::InvalidVertexCount)
        } else if !self.p.in_unit_interval() {
            Some(GenError::InvalidProbability)
        } else if self.n > isize::MAX || self.target_edge_count() > usize::MAX {
            Some(GenError::InstanceTooLarge)
        } else {
            None
        }
    }

    /// Whether graphs can be generated from this configuration.
    pub open spec fn valid(self) -> bool {
        self.rejection() is None
    }
}

/// The configuration of an Erdos-Renyi G(n, p) model. A value of this type
/// is immutable; each option is set by a function that returns a new value.
#[derive(Debug, Clone, Copy)]
pub struct ErModel {
    /// Number of vertices in the generated graphs.
    n: usize,
    /// Likelihood of any edge to be generated.
    p: Probability,
    /// Whether the generated graphs are directed.
    digraph: bool,
    /// Whether self loops are allowed.
    self_loops: bool,
}

impl View for ErModel {
    type V = ModelView;

    closed spec fn view(&self) -> ModelView {
        ModelView { n: self.n as nat, p: self.p, digraph: self.digraph, self_loops: self.self_loops }
    }
}

/// Counts the candidate edges on `n` vertices.
fn count_possible_edges(n: usize, digraph: bool, self_loops: bool) -> (count: u128)
    requires
        n >= 1,
    ensures
        count == possible_edges(n as nat, digraph, self_loops),
{
    let sources: u128 = n as u128;
    let dests: u128 = if self_loops {
        n as u128
    } else {
        (n - 1) as u128
    };
    assert(sources * dests <= u128::MAX) by (nonlinear_arith)
        requires
            sources <= 0xffff_ffff_ffff_ffff,
            dests <= 0xffff_ffff_ffff_ffff,
    ;
    if digraph {
        sources * dests
    } else {
        (sources * dests) / 2
    }
}

/// Scales `count` by the probability `p`, rounding to the nearest integer.
/// The product of the numerator and `count` is never formed, so that no
/// count is too large for the 128-bit accumulator.
fn scale_count(p: Probability, count: u128) -> (wanted: u128)
    requires
        p.in_unit_interval(),
    ensures
        wanted == scaled(p.num as nat, p.den as nat, count as nat),
        wanted <= count,
{
    let num: u128 = p.num as u128;
    let den: u128 = p.den as u128;
    let q: u128 = count / den;
    let r: u128 = count % den;
    proof {
        lemma_scaled_split(num as nat, den as nat, count as nat);
        assert(num * r <= u128::MAX) by (nonlinear_arith)
            requires
                num <= 0xffff_ffff_ffff_ffff,
                r <= 0xffff_ffff_ffff_ffff,
        ;
    }
    let t: u128 = num * r;
    let a: u128 = t / den;
    let b: u128 = t % den;
    let up: u128 = if b >= den - b {
        1
    } else {
        0
    };
    assert(num * q >= 0) by (nonlinear_arith)
        requires
            num >= 0,
            q >= 0,
    ;
    num * q + a + up
}

impl ErModel {
    /// The model on `n` vertices with edge probability `p`, with the two
    /// options as given. This is where a configuration is validated: what is
    /// returned is either a model from which graphs can be generated, or
    /// the reason for which there is none.
    pub fn with_options(n: usize, p: Probability, digraph: bool, self_loops: bool) -> (r: Result<
        ErModel,
        GenError,
    >)
        ensures
            match r {
                Ok(m) => m@ == (ModelView { n: n as nat, p, digraph, self_loops }) && m@.valid(),
                Err(e) => (ModelView { n: n as nat, p, digraph, self_loops }).rejection() == Some(e),
            },
    {
        if n == 0 || (n == 1 && !self_loops) {
            return Err(GenError::InvalidVertexCount);
        }
        if p.den == 0 || p.num > p.den {
            return Err(GenError::InvalidProbability);
        }
        if n > isize::MAX as usize {
            return Err(GenError::InstanceTooLarge);
        }
        let wanted: u128 = scale_count(p, count_possible_edges(n, digraph, self_loops));
        if wanted > usize::MAX as u128 {
            return Err(GenError::InstanceTooLarge);
        }
        Ok(ErModel { n, p, digraph, self_loops })
    }

    /// The model of undirected graphs without self loops on `n` vertices,
    /// each edge having the likelihood `p`.
    pub fn new(n: usize, p: Probability) -> (r: Result<ErModel, GenError>)
        ensures
            match r {
                Ok(m) => m@ == (ModelView { n: n as nat, p, digraph: false, self_loops: false })
                    && m@.valid(),
                Err(e) => (ModelView {
                    n: n as nat,
                    p,
                    digraph: false,
                    self_loops: false,
                }).rejection() == Some(e),
            },
    {
        ErModel::with_options(n, p, false, false)
    }

    /// The same model, of directed graphs.
    pub fn digraph(self) -> (r: Result<ErModel, GenError>)
        ensures
            match r {
                Ok(m) => m@ == (ModelView { digraph: true, ..self@ }) && m@.valid(),
                Err(e) => (ModelView { digraph: true, ..self@ }).rejection() == Some(e),
            },
    {
        ErModel::with_options(self.n, self.p, true, self.self_loops)
    }

    /// The same model, of graphs that may hold self loops.
    pub fn with_self_loops(self) -> (r: Result<ErModel, GenError>)
        ensures
            match r {
                Ok(m) => m@ == (ModelView { self_loops: true, ..self@ }) && m@.valid(),
                Err(e) => (ModelView { self_loops: true, ..self@ }).rejection() == Some(e),
            },
    {
        ErModel::with_options(self.n, self.p, self.digraph, true)
    }

    /// Returns a new generator for the given model.
    pub fn generator(self) -> (generator: ErGenerator)
        requires
            self@.valid(),
        ensures
            generator@ == self@,
    {
        ErGenerator::new(self)
    }

    /// Returns the number of edges if the graph were full mesh.
    pub fn nb_possible_edges(self) -> (count: u128)
        requires
            self@.valid(),
        ensures
            count == self@.possible_edge_count(),
    {
        count_possible_edges(self.n, self.digraph, self.self_loops)
    }

    /// Returns the number of edges that are sampled, so that each of the
    /// candidate edges has a likelihood of `p`.
    pub fn nb_edges_to_pick(self) -> (count: usize)
        requires
            self@.valid(),
        ensures
            count == self@.target_edge_count(),
    {
        let wanted: u128 = scale_count(
            self.p,
            count_possible_edges(self.n, self.digraph, self.self_loops),
        );
        wanted as usize
    }

    /// The number of vertices.
    pub fn n(self) -> (n: usize)
        ensures
            n == self@.n,
    {
        self.n
    }

    /// The edge probability.
    pub fn p(self) -> (p: Probability)
        ensures
            p == self@.p,
    {
        self.p
    }

    /// Whether the graphs are directed.
    pub fn is_digraph(self) -> (b: bool)
        ensures
            b == self@.digraph,
    {
        self.digraph
    }

    /// Whether self loops are allowed.
    pub fn allows_self_loops(self) -> (b: bool)
        ensures
            b == self@.self_loops,
    {
        self.self_loops
    }
}

/// The scaled count splits along the division of `count` by `den`, so that
/// it can be computed without ever forming `num * count`.
pub proof fn lemma_scaled_split(num: nat, den: nat, count: nat)
    requires
        0 < den,
        num <= den,
    ensures
        scaled(num, den, count) == num * (count / den) + (num * (count % den)) / den + (if 2 * ((num
            * (count % den)) % den) >= den {
            1nat
        } else {
            0nat
        }),
        scaled(num, den, count) <= count,
{
    let q = count / den;
    let r = count % den;
    let t = num * r;
    let a = t / den;
    let b = t % den;
    let up: nat = if 2 * b >= den {
        1
    } else {
        0
    };
    let whole = (2 * num * count + den) as int;
    let quotient = (num * q + a + up) as int;
    let rest: int = if 2 * b >= den {
        2 * b - den
    } else {
        (2 * b + den) as int
    };
    assert(count == q * den + r) by (nonlinear_arith)
        requires
            0 < den,
            q == count / den,
            r == count % den,
    ;
    assert(t == a * den + b) by (nonlinear_arith)
        requires
            0 < den,
            a == t / den,
            b == t % den,
    ;
    assert(0 <= b < den) by (nonlinear_arith)
        requires
            0 < den,
            b == t % den,
    ;
    assert(up * (2 * den) == if 2 * b >= den {
        2 * den
    } else {
        0
    }) by (nonlinear_arith)
        requires
            up == if 2 * b >= den {
                1nat
            } else {
                0nat
            },
    ;
    assert(whole == quotient * (2 * den) + rest) by (nonlinear_arith)
        requires
            whole == 2 * num * count + den,
            quotient == num * q + a + up,
            rest == 2 * b + den - up * (2 * den),
            count == q * den + r,
            t == num * r,
            t == a * den + b,
    ;
    lemma_fundamental_div_mod_converse(whole, 2 * den as int, quotient, rest);
    assert(quotient <= count) by (nonlinear_arith)
        requires
            whole == quotient * (2 * den) + rest,
            whole == 2 * num * count + den,
            0 <= rest,
            num <= den,
            0 < den,
            0 <= count,
            0 <= num,
    ;
}

/// No edge is wanted at probability zero.
pub proof fn lemma_scaled_zero(den: nat, count: nat)
    requires
        0 < den,
    ensures
        scaled(0, den, count) == 0,
{
    assert(2 * 0 * count + den == den) by (nonlinear_arith);
    lemma_fundamental_div_mod_converse(den as int, 2 * den as int, 0, den as int);
}

/// Every candidate edge is wanted at probability one.
pub proof fn lemma_scaled_one(den: nat, count: nat)
    requires
        0 < den,
    ensures
        scaled(den, den, count) == count,
{
    assert(2 * den * count + den == count * (2 * den) + den) by (nonlinear_arith);
    lemma_fundamental_div_mod_converse(
        (2 * den * count + den) as int,
        2 * den as int,
        count as int,
        den as int,
    );
}

/// A larger ratio never scales a count to less.
pub proof fn lemma_scaled_monotone(num1: nat, den1: nat, num2: nat, den2: nat, count: nat)
    requires
        0 < den1,
        0 < den2,
        num1 * den2 <= num2 * den1,
    ensures
        scaled(num1, den1, count) <= scaled(num2, den2, count),
{
    let w1 = (2 * num1 * count + den1) as int;
    let w2 = (2 * num2 * count + den2) as int;
    let a = w1 / (2 * den1 as int);
    let b = w2 / (2 * den2 as int);
    assert(w1 == a * (2 * den1) + w1 % (2 * den1 as int) && 0 <= w1 % (2 * den1 as int)) by (nonlinear_arith)
        requires
            0 < den1,
            a == w1 / (2 * den1 as int),
    ;
    assert(w2 == b * (2 * den2) + w2 % (2 * den2 as int) && w2 % (2 * den2 as int) < 2 * den2) by (nonlinear_arith)
        requires
            0 < den2,
            b == w2 / (2 * den2 as int),
    ;
    // a * 2 * den1 <= w1, hence a * 2 * den2 <= w2 < (b + 1) * 2 * den2.
    assert(a * (2 * den2) * den1 <= w2 * den1) by (nonlinear_arith)
        requires
            a * (2 * den1) <= w1,
            w1 == 2 * num1 * count + den1,
            w2 == 2 * num2 * count + den2,
            num1 * den2 <= num2 * den1,
            0 <= count,
            0 < den1,
            0 < den2,
    ;
    assert(a * (2 * den2) <= w2) by (nonlinear_arith)
        requires
            a * (2 * den2) * den1 <= w2 * den1,
            0 < den1,
    ;
    assert(w2 < (b + 1) * (2 * den2)) by (nonlinear_arith)
        requires
            w2 == b * (2 * den2) + w2 % (2 * den2 as int),
            w2 % (2 * den2 as int) < 2 * den2,
    ;
    assert(a <= b) by (nonlinear_arith)
        requires
            a * (2 * den2) <= w2,
            w2 < (b + 1) * (2 * den2),
            0 < den2,
    ;
}

/// For a fixed number of vertices and fixed options, the number of edges
/// to draw never decreases as the probability grows.
pub proof fn target_grows_with_probability(a: ModelView, b: ModelView)
    requires
        a.n == b.n,
        a.digraph == b.digraph,
        a.self_loops == b.self_loops,
        a.p.in_unit_interval(),
        b.p.in_unit_interval(),
        a.p.at_most(b.p),
    ensures
        a.target_edge_count() <= b.target_edge_count(),
{
    lemma_scaled_monotone(
        a.p.num as nat,
        a.p.den as nat,
        b.p.num as nat,
        b.p.den as nat,
        a.possible_edge_count(),
    );
}

/// At probability zero no edge is drawn.
pub proof fn target_at_probability_zero(m: ModelView)
    requires
        m.p.in_unit_interval(),
        m.p.num == 0,
    ensures
        m.target_edge_count() == 0,
{
    lemma_scaled_zero(m.p.den as nat, m.possible_edge_count());
}

/// At probability one every candidate edge is drawn.
pub proof fn target_at_probability_one(m: ModelView)
    requires
        m.p.in_unit_interval(),
        m.p.num == m.p.den,
    ensures
        m.target_edge_count() == m.possible_edge_count(),
{
    lemma_scaled_one(m.p.den as nat, m.possible_edge_count());
}

/// The number of edges to draw never exceeds the number of candidates.
pub proof fn target_within_possible(m: ModelView)
    requires
        m.p.in_unit_interval(),
    ensures
        m.target_edge_count() <= m.possible_edge_count(),
{
    lemma_scaled_split(m.p.num as nat, m.p.den as nat, m.possible_edge_count());
}

} // verus!
