//! The renderer: one synchronous pass over a graph emitting flowchart
//! text — a header line, one line per node, then one line per edge.

use crate::config::Config;
use crate::config::Configs;
use crate::config::resolved;
use crate::decimal::decimal;
use crate::decimal::index_text;
use crate::escape::escape;
use crate::escape::escape_text;
use crate::graph::Graph;
use crate::graph::GraphModel;
use vstd::prelude::*;
use vstd::string::StringExecFns;

verus! {

/// The attribute text for index `i`: the entry of `attrs` at `i`, or
/// empty text where the collection holds no entry for it.
pub open spec fn attr_at(attrs: Seq<Seq<char>>, i: int) -> Seq<char> {
    if 0 <= i < attrs.len() {
        attrs[i]
    } else {
        Seq::empty()
    }
}

/// The arrow token of an edge line: `-->` on a directed graph, `---`
/// on an undirected one.
pub open spec fn arrow(directed: bool) -> Seq<char> {
    if directed {
        ("-->")@
    } else {
        ("---")@
    }
}

/// The label of a node declaration, quotes included: nothing when
/// `NodeNoLabel` is set; the quoted index when `NodeIndexLabel` is
/// set; otherwise the quoted, escaped payload text.
pub open spec fn node_label(idx: nat, payload: Seq<char>, c: Configs) -> Seq<char> {
    if c.node_no_label {
        Seq::empty()
    } else if c.node_index_label {
        ("\"")@ + decimal(idx) + ("\"")@
    } else {
        ("\"")@ + escape_text(payload) + ("\"")@
    }
}

/// One node declaration line: indentation, the index, the bracketed
/// label, the node attribute text appended verbatim, and the line
/// terminator.
pub open spec fn node_line(idx: nat, payload: Seq<char>, c: Configs, attr: Seq<char>) -> Seq<
    char,
> {
    ("    ")@ + decimal(idx) + ("[")@ + node_label(idx, payload, c) + ("]")@ + attr + ("\n")@
}

/// One edge declaration line: indentation, the source index, the
/// arrow, the target index, the edge attribute text appended verbatim,
/// and the line terminator. The edge payload takes no part in it.
pub open spec fn edge_line(source: nat, target: nat, directed: bool, attr: Seq<char>) -> Seq<
    char,
> {
    ("    ")@ + decimal(source) + (" ")@ + arrow(directed) + (" ")@ + decimal(target) + attr + (
    "\n")@
}

/// The node lines for indices below `upto`, concatenated in order.
pub open spec fn node_lines_upto(g: GraphModel, c: Configs, nattrs: Seq<Seq<char>>, upto: int) -> Seq<
    char,
>
    decreases upto,
{
    if upto <= 0 {
        Seq::empty()
    } else {
        node_lines_upto(g, c, nattrs, upto - 1) + node_line(
            (upto - 1) as nat,
            g.nodes[upto - 1],
            c,
            attr_at(nattrs, upto - 1),
        )
    }
}

/// The edge lines for edge positions below `upto`, concatenated in
/// order.
pub open spec fn edge_lines_upto(g: GraphModel, eattrs: Seq<Seq<char>>, upto: int) -> Seq<char>
    decreases upto,
{
    if upto <= 0 {
        Seq::empty()
    } else {
        edge_lines_upto(g, eattrs, upto - 1) + edge_line(
            g.edges[upto - 1].source,
            g.edges[upto - 1].target,
            g.directed,
            attr_at(eattrs, upto - 1),
        )
    }
}

/// The whole rendered text: the header, every node line in node order,
/// then every edge line in edge order.
pub open spec fn render_text(
    g: GraphModel,
    c: Configs,
    nattrs: Seq<Seq<char>>,
    eattrs: Seq<Seq<char>>,
) -> Seq<char> {
    ("flowchart TD\n")@ + node_lines_upto(g, c, nattrs, g.nodes.len() as int) + edge_lines_upto(
        g,
        eattrs,
        g.edges.len() as int,
    )
}

/// Rendering is deterministic: the rendered text is a function of the
/// graph, the configuration and the attribute texts alone, so equal
/// inputs render to identical text.
pub proof fn lemma_render_deterministic(
    g1: GraphModel,
    g2: GraphModel,
    c1: Configs,
    c2: Configs,
    na1: Seq<Seq<char>>,
    na2: Seq<Seq<char>>,
    ea1: Seq<Seq<char>>,
    ea2: Seq<Seq<char>>,
)
    requires
        g1 == g2,
        c1 == c2,
        na1 == na2,
        ea1 == ea2,
    ensures
        render_text(g1, c1, na1, ea1) == render_text(g2, c2, na2, ea2),
{
}

/// With `NodeIndexLabel` set, a node's line does not depend on its
/// payload text.
pub proof fn lemma_node_index_label_ignores_payload(
    idx: nat,
    p1: Seq<char>,
    p2: Seq<char>,
    c: Configs,
    attr: Seq<char>,
)
    requires
        c.node_index_label,
    ensures
        node_line(idx, p1, c, attr) == node_line(idx, p2, c, attr),
{
}

/// With `NodeIndexLabel` set and `NodeNoLabel` clear, a node's line is
/// its index, bracketed and labelled with that same index in quotes,
/// whatever the payload text.
pub proof fn lemma_node_index_label_line(idx: nat, p: Seq<char>, c: Configs, attr: Seq<char>)
    requires
        c.node_index_label,
        !c.node_no_label,
    ensures
        node_line(idx, p, c, attr) == ("    ")@ + decimal(idx) + ("[\"")@ + decimal(idx) + ("\"]")@
            + attr + ("\n")@,
{
    reveal_strlit("[");
    reveal_strlit("]");
    reveal_strlit("\"");
    reveal_strlit("[\"");
    reveal_strlit("\"]");
    assert(("[")@ + ("\"")@ =~= ("[\"")@);
    assert(("\"")@ + ("]")@ =~= ("\"]")@);
    assert(node_line(idx, p, c, attr) =~= ("    ")@ + decimal(idx) + ("[\"")@ + decimal(idx) + (
    "\"]")@ + attr + ("\n")@);
}

/// With `NodeNoLabel` set, a node's line is its index followed by an
/// empty bracket pair, whatever the payload text and the other flags.
pub proof fn lemma_node_no_label_line(idx: nat, p: Seq<char>, c: Configs, attr: Seq<char>)
    requires
        c.node_no_label,
    ensures
        node_line(idx, p, c, attr) == ("    ")@ + decimal(idx) + ("[]")@ + attr + ("\n")@,
{
    reveal_strlit("[");
    reveal_strlit("]");
    reveal_strlit("[]");
    assert(("[")@ + ("]")@ =~= ("[]")@);
    assert(node_line(idx, p, c, attr) =~= ("    ")@ + decimal(idx) + ("[]")@ + attr + ("\n")@);
}

/// Every node line ends with its attribute text, appended verbatim,
/// followed by the line terminator.
pub proof fn lemma_node_line_attr_suffix(idx: nat, p: Seq<char>, c: Configs, attr: Seq<char>)
    ensures
        node_line(idx, p, c, attr).len() > attr.len(),
        node_line(idx, p, c, attr).subrange(
            node_line(idx, p, c, attr).len() - attr.len() - 1,
            node_line(idx, p, c, attr).len() as int,
        ) == attr + ("\n")@,
{
    reveal_strlit("\n");
    let t = node_line(idx, p, c, attr);
    assert(t.subrange(t.len() - attr.len() - 1, t.len() as int) =~= attr + ("\n")@);
}

/// Every edge line ends with its attribute text, appended verbatim,
/// followed by the line terminator.
pub proof fn lemma_edge_line_attr_suffix(source: nat, target: nat, directed: bool, attr: Seq<char>)
    ensures
        edge_line(source, target, directed, attr).len() > attr.len(),
        edge_line(source, target, directed, attr).subrange(
            edge_line(source, target, directed, attr).len() - attr.len() - 1,
            edge_line(source, target, directed, attr).len() as int,
        ) == attr + ("\n")@,
{
    reveal_strlit("\n");
    let t = edge_line(source, target, directed, attr);
    assert(t.subrange(t.len() - attr.len() - 1, t.len() as int) =~= attr + ("\n")@);
}

/// Among the node lines below `m`, the line of node `i` stands as one
/// contiguous segment, right after the node lines below `i`.
pub proof fn lemma_node_lines_upto_segment(
    g: GraphModel,
    c: Configs,
    nattrs: Seq<Seq<char>>,
    i: int,
    m: int,
)
    requires
        0 <= i < m,
    ensures
        ({
            let all = node_lines_upto(g, c, nattrs, m);
            let off = node_lines_upto(g, c, nattrs, i).len() as int;
            let line = node_line(i as nat, g.nodes[i], c, attr_at(nattrs, i));
            off + line.len() <= all.len() && all.subrange(off, off + line.len()) == line
        }),
    decreases m,
{
    let all = node_lines_upto(g, c, nattrs, m);
    let prev = node_lines_upto(g, c, nattrs, m - 1);
    let off = node_lines_upto(g, c, nattrs, i).len() as int;
    let line = node_line(i as nat, g.nodes[i], c, attr_at(nattrs, i));
    if i == m - 1 {
        assert(all.subrange(off, off + line.len()) =~= line);
    } else {
        lemma_node_lines_upto_segment(g, c, nattrs, i, m - 1);
        assert(all.subrange(off, off + line.len()) =~= prev.subrange(off, off + line.len()));
    }
}

/// Among the edge lines below `m`, the line of edge `j` stands as one
/// contiguous segment, right after the edge lines below `j`.
pub proof fn lemma_edge_lines_upto_segment(
    g: GraphModel,
    eattrs: Seq<Seq<char>>,
    j: int,
    m: int,
)
    requires
        0 <= j < m,
    ensures
        ({
            let all = edge_lines_upto(g, eattrs, m);
            let off = edge_lines_upto(g, eattrs, j).len() as int;
            let line = edge_line(g.edges[j].source, g.edges[j].target, g.directed, attr_at(eattrs, j));
            off + line.len() <= all.len() && all.subrange(off, off + line.len()) == line
        }),
    decreases m,
{
    let all = edge_lines_upto(g, eattrs, m);
    let prev = edge_lines_upto(g, eattrs, m - 1);
    let off = edge_lines_upto(g, eattrs, j).len() as int;
    let line = edge_line(g.edges[j].source, g.edges[j].target, g.directed, attr_at(eattrs, j));
    if j == m - 1 {
        assert(all.subrange(off, off + line.len()) =~= line);
    } else {
        lemma_edge_lines_upto_segment(g, eattrs, j, m - 1);
        assert(all.subrange(off, off + line.len()) =~= prev.subrange(off, off + line.len()));
    }
}

/// Each node's declaration line stands as one contiguous segment of
/// the rendered text; by `lemma_node_line_attr_suffix` it ends with
/// that node's attribute text, verbatim, before the line terminator.
pub proof fn lemma_render_node_line(
    g: GraphModel,
    c: Configs,
    nattrs: Seq<Seq<char>>,
    eattrs: Seq<Seq<char>>,
    i: int,
)
    requires
        0 <= i < g.nodes.len(),
    ensures
        ({
            let t = render_text(g, c, nattrs, eattrs);
            let off = ("flowchart TD\n")@.len() as int + node_lines_upto(g, c, nattrs, i).len() as int;
            let line = node_line(i as nat, g.nodes[i], c, attr_at(nattrs, i));
            off + line.len() <= t.len() && t.subrange(off, off + line.len() as int) == line
        }),
{
    lemma_node_lines_upto_segment(g, c, nattrs, i, g.nodes.len() as int);
    let t = render_text(g, c, nattrs, eattrs);
    let off = ("flowchart TD\n")@.len() as int + node_lines_upto(g, c, nattrs, i).len() as int;
    let line = node_line(i as nat, g.nodes[i], c, attr_at(nattrs, i));
    assert(t.subrange(off, off + line.len() as int) =~= line);
}

/// Each edge's declaration line stands as one contiguous segment of
/// the rendered text; by `lemma_edge_line_attr_suffix` it ends with
/// that edge's attribute text, verbatim, before the line terminator.
pub proof fn lemma_render_edge_line(
    g: GraphModel,
    c: Configs,
    nattrs: Seq<Seq<char>>,
    eattrs: Seq<Seq<char>>,
    j: int,
)
    requires
        0 <= j < g.edges.len(),
    ensures
        ({
            let t = render_text(g, c, nattrs, eattrs);
            let off = ("flowchart TD\n")@.len() as int + node_lines_upto(g, c, nattrs, g.nodes.len() as int).len()
                + edge_lines_upto(g, eattrs, j).len();
            let line = edge_line(g.edges[j].source, g.edges[j].target, g.directed, attr_at(eattrs, j));
            off + line.len() <= t.len() && t.subrange(off, off + line.len() as int) == line
        }),
{
    lemma_edge_lines_upto_segment(g, eattrs, j, g.edges.len() as int);
    let t = render_text(g, c, nattrs, eattrs);
    let off = ("flowchart TD\n")@.len() as int + node_lines_upto(g, c, nattrs, g.nodes.len() as int).len()
        + edge_lines_upto(g, eattrs, j).len();
    let line = edge_line(g.edges[j].source, g.edges[j].target, g.directed, attr_at(eattrs, j));
    assert(t.subrange(off, off + line.len() as int) =~= line);
}

/// A renderer over a borrowed graph: the resolved configuration and
/// the attribute texts to append verbatim after node and edge
/// declarations, one entry per index, missing entries meaning empty
/// text.
pub struct Mermaid<'a> {
    pub graph: &'a Graph,
    pub config: Configs,
    pub edge_attrs: Vec<String>,
    pub node_attrs: Vec<String>,
}

impl<'a> Mermaid<'a> {
    /// Creates a renderer with default configuration and no attribute
    /// texts.
    pub fn new(graph: &'a Graph) -> (r: Self)
        ensures
            r.graph == graph,
            r.config == resolved(Seq::<Config>::empty()),
            r.node_attrs@.len() == 0,
            r.edge_attrs@.len() == 0,
    {
        Self::with_config(graph, &[])
    }

    /// Creates a renderer with the given configuration and no
    /// attribute texts.
    pub fn with_config(graph: &'a Graph, config: &[Config]) -> (r: Self)
        ensures
            r.graph == graph,
            r.config == resolved(config@),
            r.node_attrs@.len() == 0,
            r.edge_attrs@.len() == 0,
    {
        Self::with_attr_getters(graph, config, Vec::new(), Vec::new())
    }

    /// Creates a fully customized renderer. `edge_attrs[i]` and
    /// `node_attrs[i]` are appended verbatim — unescaped, the caller
    /// answers for their syntactic safety — after the declaration of
    /// the edge or node with index `i`.
    pub fn with_attr_getters(
        graph: &'a Graph,
        config: &[Config],
        edge_attrs: Vec<String>,
        node_attrs: Vec<String>,
    ) -> (r: Self)
        ensures
            r.graph == graph,
            r.config == resolved(config@),
            r.edge_attrs == edge_attrs,
            r.node_attrs == node_attrs,
    {
        let config = Configs::extract(config);
        Mermaid { graph, config, edge_attrs, node_attrs }
    }

    /// Renders the graph: the header `flowchart TD`, one declaration
    /// line per node in node order, then one per edge in edge order.
    #[verifier::rlimit(50)]
    pub fn render(&self) -> (r: String)
        ensures
            r@ == render_text(
                self.graph@,
                self.config,
                self.node_attrs.deep_view(),
                self.edge_attrs.deep_view(),
            ),
    {
        let g = self.graph;
        let c = self.config;
        let ghost gm = g@;
        let ghost na = self.node_attrs.deep_view();
        let ghost ea = self.edge_attrs.deep_view();
        let mut out = ("flowchart TD\n").to_owned();
        let n = g.nodes.len();
        let mut i: usize = 0;
        while i < n
            invariant
                n == gm.nodes.len(),
                i <= n,
                gm == g@,
                c == self.config,
                na == self.node_attrs.deep_view(),
                out@ == ("flowchart TD\n")@ + node_lines_upto(gm, c, na, i as int),
            decreases n - i,
        {
            let ghost before = out@;
            out.append("    ");
            let it = index_text(i);
            out.append(it.as_str());
            out.append("[");
            if !c.node_no_label {
                out.append("\"");
                if c.node_index_label {
                    out.append(it.as_str());
                } else {
                    let esc = escape(g.nodes[i].as_str());
                    out.append(esc.as_str());
                }
                out.append("\"");
            }
            out.append("]");
            if i < self.node_attrs.len() {
                out.append(self.node_attrs[i].as_str());
            }
            out.append("\n");
            proof {
                assert(gm.nodes[i as int] == g.nodes[i as int]@);
                assert(out@ =~= before + node_line(i as nat, gm.nodes[i as int], c, attr_at(na, i as int)));
                assert(out@ =~= ("flowchart TD\n")@ + node_lines_upto(gm, c, na, i + 1 as int));
            }
            i = i + 1;
        }
        let m = g.edges.len();
        let mut j: usize = 0;
        while j < m
            invariant
                m == gm.edges.len(),
                j <= m,
                gm == g@,
                ea == self.edge_attrs.deep_view(),
                out@ == ("flowchart TD\n")@ + node_lines_upto(gm, c, na, gm.nodes.len() as int)
                    + edge_lines_upto(gm, ea, j as int),
            decreases m - j,
        {
            let ghost before = out@;
            out.append("    ");
            let src = index_text(g.edges[j].source);
            out.append(src.as_str());
            out.append(" ");
            if g.directed {
                out.append("-->");
            } else {
                out.append("---");
            }
            out.append(" ");
            let tgt = index_text(g.edges[j].target);
            out.append(tgt.as_str());
            if j < self.edge_attrs.len() {
                out.append(self.edge_attrs[j].as_str());
            }
            out.append("\n");
            proof {
                assert(gm.edges[j as int] == g.edges[j as int]@);
                assert(out@ =~= before + edge_line(
                    gm.edges[j as int].source,
                    gm.edges[j as int].target,
                    gm.directed,
                    attr_at(ea, j as int),
                ));
                assert(out@ =~= ("flowchart TD\n")@ + node_lines_upto(gm, c, na, gm.nodes.len() as int)
                    + edge_lines_upto(gm, ea, j + 1 as int));
            }
            j = j + 1;
        }
        out
    }
}

} // verus!
