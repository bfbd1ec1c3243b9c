//! Renders a graph of text-labelled nodes and edges as a Mermaid
//! flowchart description: a `flowchart TD` header, one line per node,
//! then one line per edge.

use vstd::prelude::*;

pub mod config;
pub mod decimal;
pub mod escape;
pub mod graph;
pub mod render;

pub use config::Config;
pub use config::Configs;
pub use escape::escape;
pub use graph::Edge;
pub use graph::Graph;
pub use render::Mermaid;

verus! {

} // verus!
