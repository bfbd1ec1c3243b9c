//! Configuration flags controlling label verbosity.

use vstd::prelude::*;

verus! {

/// A named rendering option. The set of options is open: new flags may
/// be added later, so callers outside this crate must not match on it
/// exhaustively.
#[derive(Debug, PartialEq, Eq, Structural)]
#[non_exhaustive]
pub enum Config {
    /// Use indices for node labels.
    NodeIndexLabel,
    /// Use indices for edge labels.
    EdgeIndexLabel,
    /// Use no edge labels.
    EdgeNoLabel,
    /// Use no node labels.
    NodeNoLabel,
}

/// The resolved configuration record: one boolean per known flag,
/// each true exactly when the flag occurred in the collection it was
/// extracted from.
///
/// `edge_index_label` and `edge_no_label` are resolved like the other
/// flags but have no effect on edge-line emission: edges carry no
/// built-in label, so any edge decoration must come from the edge
/// attribute texts.
#[derive(Debug, Clone, Copy, PartialEq, Eq, Structural)]
pub struct Configs {
    pub node_index_label: bool,
    pub edge_index_label: bool,
    pub edge_no_label: bool,
    pub node_no_label: bool,
}

/// The configuration record that a collection of flags resolves to:
/// each field is true exactly when the flag occurs in the collection.
pub open spec fn resolved(flags: Seq<Config>) -> Configs {
    Configs {
        node_index_label: flags.contains(Config::NodeIndexLabel),
        edge_index_label: flags.contains(Config::EdgeIndexLabel),
        edge_no_label: flags.contains(Config::EdgeNoLabel),
        node_no_label: flags.contains(Config::NodeNoLabel),
    }
}

impl Configs {
    /// Resolves an ordered collection of flags into a `Configs` record.
    /// Repeating a flag has no additional effect, and no combination is
    /// rejected.
    pub fn extract(configs: &[Config]) -> (r: Configs)
        ensures
            r == resolved(configs@),
    {
        let mut conf = Configs {
            node_index_label: false,
            edge_index_label: false,
            edge_no_label: false,
            node_no_label: false,
        };
        let n = configs.len();
        let mut i: usize = 0;
        while i < n
            invariant
                n == configs@.len(),
                i <= n,
                conf.node_index_label == (exists|j: int|
                    0 <= j < i && configs@[j] == Config::NodeIndexLabel),
                conf.edge_index_label == (exists|j: int|
                    0 <= j < i && configs@[j] == Config::EdgeIndexLabel),
                conf.edge_no_label == (exists|j: int|
                    0 <= j < i && configs@[j] == Config::EdgeNoLabel),
                conf.node_no_label == (exists|j: int|
                    0 <= j < i && configs@[j] == Config::NodeNoLabel),
            decreases n - i,
        {
            match configs[i] {
                Config::NodeIndexLabel => {
                    conf.node_index_label = true;
                },
                Config::EdgeIndexLabel => {
                    conf.edge_index_label = true;
                },
                Config::EdgeNoLabel => {
                    conf.edge_no_label = true;
                },
                Config::NodeNoLabel => {
                    conf.node_no_label = true;
                },
            }
            i = i + 1;
        }
        conf
    }
}

} // verus!
