//! Pseudo-random graphs under an Erdos-Renyi G(n, p) model, and their
//! renderings as text for combinatorial solvers.

pub mod args;
pub mod clique;
pub mod edge;
pub mod encode;
pub mod error;
pub mod formats;
pub mod generatable;
pub mod generator;
pub mod graph;
pub mod model;
pub mod random;
pub mod sat;
pub mod text;

pub use args::{Args, Output};
pub use clique::MaxCliqueGraph;
pub use edge::{Edge, Vertex};
pub use error::GenError;
pub use generatable::{Generatable, Kind};
pub use generator::ErGenerator;
pub use graph::{Graph, GraphView};
pub use model::{ErModel, ModelView, Probability};
pub use sat::Max2SatGraph;
