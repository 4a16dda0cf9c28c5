//! A whole run, from its arguments to the text that it prints.

use crate::error::GenError;
use crate::generatable::{Generatable, Kind};
use crate::generator::generated;
use crate::graph::{Graph, GraphView};
use crate::model::{ErModel, ModelView, Probability};
use crate::sat::Max2SatGraph;
use crate::text::join_lines;
use vstd::prelude::*;
use vstd::string::*;

verus! {

/// The output languages.
#[derive(Debug, Clone, Copy, PartialEq, Eq, Structural)]
pub enum Output {
    /// The problem file of the instance.
    Dimacs,
    /// The drawing of the instance.
    GraphViz,
}

impl Default for Output {
    fn default() -> (o: Output)
        ensures
            o == Output::Dimacs,
    {
        Output::Dimacs
    }
}

/// The lowercase equivalent of a text, as `str::to_lowercase` of the
/// standard library defines it.
pub uninterp spec fn lowercase(s: Seq<char>) -> Seq<char>;

/// `str::to_lowercase` of the standard library. Its result is defined by
/// the lowercase mappings of Unicode, which are not written out here: the
/// result only gets a name.
#[verifier::external_body]
fn to_lowercase(s: &str) -> (lowered: String)
    ensures
        lowered@ == lowercase(s@),
{
    s.to_lowercase()
}

/// The output language that a name in lower case denotes.
pub open spec fn output_named(name: Seq<char>) -> Option<Output> {
    if name == "dimacs"@ {
        Some(Output::Dimacs)
    } else if name == "graphviz"@ || name == "dot"@ {
        Some(Output::GraphViz)
    } else {
        None
    }
}

impl Output {
    /// The output language that `name` denotes, `name` being in lower case
    /// already.
    pub fn from_lowercase(name: &str) -> (r: Option<Output>)
        ensures
            r == output_named(name@),
    {
        let name = name.to_owned();
        if name == String::from_str("dimacs") {
            Some(Output::Dimacs)
        } else if name == String::from_str("graphviz") {
            Some(Output::GraphViz)
        } else if name == String::from_str("dot") {
            Some(Output::GraphViz)
        } else {
            None
        }
    }

    /// The output language that `txt` denotes, whatever the case of its
    /// letters. A text that denotes none is handed back as the error.
    pub fn from_str(txt: &str) -> (r: Result<Output, String>)
        ensures
            match r {
                Ok(o) => output_named(lowercase(txt@)) == Some(o),
                Err(e) => output_named(lowercase(txt@)) is None && e@ == txt@,
            },
    {
        let lowered = to_lowercase(txt);
        match Output::from_lowercase(lowered.as_str()) {
            Some(o) => Ok(o),
            None => Err(txt.to_owned()),
        }
    }
}

/// The arguments of one run.
pub struct Args {
    /// The number of vertices in the generated graph; for a max2sat
    /// instance, the number of variables.
    pub n: usize,
    /// The likelihood of any edge to be picked.
    pub p: Probability,
    /// If set, self loops are allowed in the generated graph.
    pub loops: bool,
    /// If set, the generated graph will be a digraph.
    pub digraph: bool,
    /// The kind of instance that the graph stands for.
    pub kind: Kind,
    /// The output language (defaults to dimacs).
    pub output: Option<Output>,
    /// Optional weight candidates.
    pub weights: Option<Vec<isize>>,
}

impl Args {
    /// The number of vertices of the graph: a max2sat instance has two
    /// vertices for each variable.
    pub open spec fn nb_vertices(&self) -> nat {
        if self.kind == Kind::Max2Sat {
            2 * self.n as nat
        } else {
            self.n as nat
        }
    }

    /// The model that the arguments describe.
    pub open spec fn model(&self) -> ModelView {
        ModelView {
            n: self.nb_vertices(),
            p: self.p,
            digraph: self.digraph,
            self_loops: self.loops,
        }
    }

    /// The reason for which the arguments are turned down before anything
    /// is drawn, if any: the size of the graph is looked at first, then
    /// the model, then the weight candidates.
    pub open spec fn rejection(&self) -> Option<GenError> {
        if self.nb_vertices() > usize::MAX {
            Some(GenError::InstanceTooLarge)
        } else if self.model().rejection() is Some {
            self.model().rejection()
        } else if self.weights matches Some(w) && w@.len() == 0 {
            Some(GenError::NoWeightCandidates)
        } else {
            None
        }
    }

    /// What holds of the weights of a graph made for these arguments: each
    /// is one of the candidates where there are any, and 1 else.
    pub open spec fn weighs(&self, g: GraphView) -> bool {
        forall|i: int|
            0 <= i < g.edges.len() ==> match self.weights {
                Some(w) => w@.contains((#[trigger] g.edges[i]).1),
                None => g.edges[i].1 == 1,
            }
    }

    /// What holds of a graph made for these arguments.
    pub open spec fn made(&self, g: Graph) -> bool {
        &&& self.rejection() is None
        &&& g.wf()
        &&& g@.model == self.model()
        &&& g@.n == self.nb_vertices()
        &&& g@.edges.len() == self.model().target_edge_count()
        &&& self.weighs(g@)
    }

    /// What holds of a failure to make a graph: either the arguments were
    /// turned down, or they were not and the random draws ran out.
    pub open spec fn failed(&self, e: GenError) -> bool {
        if e == GenError::DrawsExhausted {
            self.rejection() is None && self.model().target_edge_count() > 0
        } else {
            self.rejection() == Some(e)
        }
    }

    /// Generates the graph that the arguments ask for: it is drawn from the
    /// model and then, where weight candidates are given, each edge gets a
    /// weight picked among them.
    pub fn graph(&self) -> (r: Result<Graph, GenError>)
        ensures
            match r {
                Ok(g) => self.made(g),
                Err(e) => self.failed(e),
            },
            self.rejection() is None && self.model().target_edge_count() == 0 ==> r is Ok,
    {
        let n = match self.kind {
            Kind::Max2Sat => {
                if self.n > usize::MAX / 2 {
                    return Err(GenError::InstanceTooLarge);
                }
                2 * self.n
            },
            _ => self.n,
        };
        let model = match ErModel::with_options(n, self.p, self.digraph, self.loops) {
            Ok(model) => model,
            Err(e) => {
                return Err(e);
            },
        };
        if let Some(weights) = &self.weights {
            if weights.len() == 0 {
                return Err(GenError::NoWeightCandidates);
            }
        }
        let mut generator = model.generator();
        let mut graph = match generator.gen() {
            Ok(graph) => graph,
            Err(e) => {
                return Err(e);
            },
        };
        if let Some(weights) = &self.weights {
            match graph.pluck_random_weights(weights.as_slice()) {
                Ok(_) => {},
                Err(e) => {
                    return Err(e);
                },
            }
        }
        Ok(graph)
    }

    /// Reads a graph as a max2sat instance.
    pub fn wcnf(&self, g: Graph) -> (s: Max2SatGraph)
        ensures
            s@ == g@,
    {
        Max2SatGraph::new(g)
    }

    /// Generates the instance that the arguments ask for.
    pub fn generatable(&self) -> (r: Result<Generatable, GenError>)
        ensures
            match r {
                Ok(instance) => {
                    &&& self.rejection() is None
                    &&& match self.kind {
                        Kind::Plain => instance is GenGraph,
                        Kind::MaxClique => instance is ClqGraph,
                        Kind::Max2Sat => instance is GenSat,
                    }
                    &&& instance.graph().well_formed()
                    &&& instance.graph().model == self.model()
                    &&& instance.graph().n == self.nb_vertices()
                    &&& instance.graph().edges.len() == self.model().target_edge_count()
                    &&& self.weighs(instance.graph())
                },
                Err(e) => self.failed(e),
            },
            self.rejection() is None && self.model().target_edge_count() == 0 ==> r is Ok,
    {
        match self.graph() {
            Ok(graph) => Ok(Generatable::wrap(self.kind, graph)),
            Err(e) => Err(e),
        }
    }

    /// The lines of the text that is printed for an instance.
    pub open spec fn output_lines(&self, g: &Generatable) -> Seq<Seq<char>> {
        match self.output {
            Some(Output::GraphViz) => g.dot_lines(),
            _ => g.dimacs_lines(),
        }
    }

    /// Renders an instance in the output language asked for.
    pub fn output(&self, g: &Generatable) -> (text: String)
        ensures
            text@ == join_lines(self.output_lines(g)),
    {
        match &self.output {
            None => g.to_dimacs(),
            Some(o) => match o {
                Output::Dimacs => g.to_dimacs(),
                Output::GraphViz => g.to_dot(),
            },
        }
    }
}

} // verus!
