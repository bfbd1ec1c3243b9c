//! The graph data the renderer traverses: nodes carrying payload text,
//! edges carrying a source index, a target index and payload text, and
//! a directedness flag.
//!
//! A node's identity is its position in the node list: a stable dense
//! non-negative index. Edge endpoints are plain indices; the renderer
//! performs no validation of them, so an edge may name any index and
//! the rendered diagram simply shows what it was given.

use vstd::prelude::*;

verus! {

/// The mathematical value of an edge.
#[verifier::ext_equal]
pub ghost struct EdgeModel {
    pub source: nat,
    pub target: nat,
    pub payload: Seq<char>,
}

/// The mathematical value of a graph.
#[verifier::ext_equal]
pub ghost struct GraphModel {
    pub nodes: Seq<Seq<char>>,
    pub edges: Seq<EdgeModel>,
    pub directed: bool,
}

/// An edge: a source node index, a target node index, and an arbitrary
/// text payload. Edge payloads take no part in rendering: any edge
/// decoration comes from the edge attribute texts.
pub struct Edge {
    pub source: usize,
    pub target: usize,
    pub payload: String,
}

impl View for Edge {
    type V = EdgeModel;

    open spec fn view(&self) -> EdgeModel {
        EdgeModel { source: self.source as nat, target: self.target as nat, payload: self.payload@ }
    }
}

impl DeepView for Edge {
    type V = EdgeModel;

    open spec fn deep_view(&self) -> EdgeModel {
        self.view()
    }
}

/// A graph of text-labelled nodes and edges, directed or undirected.
pub struct Graph {
    pub nodes: Vec<String>,
    pub edges: Vec<Edge>,
    pub directed: bool,
}

impl View for Graph {
    type V = GraphModel;

    open spec fn view(&self) -> GraphModel {
        GraphModel {
            nodes: self.nodes.deep_view(),
            edges: self.edges.deep_view(),
            directed: self.directed,
        }
    }
}

impl Graph {
    /// Creates an empty graph with the given directedness.
    pub fn new(directed: bool) -> (r: Graph)
        ensures
            r@.nodes == Seq::<Seq<char>>::empty(),
            r@.edges == Seq::<EdgeModel>::empty(),
            r@.directed == directed,
    {
        let r = Graph { nodes: Vec::new(), edges: Vec::new(), directed };
        proof {
            assert(r@.nodes =~= Seq::<Seq<char>>::empty());
            assert(r@.edges =~= Seq::<EdgeModel>::empty());
        }
        r
    }

    /// Adds a node with the given payload text and returns its index.
    pub fn add_node(&mut self, payload: String) -> (idx: usize)
        ensures
            idx == old(self)@.nodes.len(),
            final(self)@.nodes == old(self)@.nodes.push(payload@),
            final(self)@.edges == old(self)@.edges,
            final(self)@.directed == old(self)@.directed,
    {
        let idx = self.nodes.len();
        let ghost p = payload@;
        self.nodes.push(payload);
        proof {
            assert(self@.nodes =~= old(self)@.nodes.push(p));
            assert(self@.edges =~= old(self)@.edges);
        }
        idx
    }

    /// Adds an edge from `source` to `target` with the given payload
    /// text. The endpoints are not validated.
    pub fn add_edge(&mut self, source: usize, target: usize, payload: String)
        ensures
            final(self)@.nodes == old(self)@.nodes,
            final(self)@.edges == old(self)@.edges.push(
                (EdgeModel { source: source as nat, target: target as nat, payload: payload@ }),
            ),
            final(self)@.directed == old(self)@.directed,
    {
        let ghost p = payload@;
        self.edges.push(Edge { source, target, payload });
        proof {
            assert(self@.edges =~= old(self)@.edges.push(
                (EdgeModel { source: source as nat, target: target as nat, payload: p }),
            ));
            assert(self@.nodes =~= old(self)@.nodes);
        }
    }

}

} // verus!
