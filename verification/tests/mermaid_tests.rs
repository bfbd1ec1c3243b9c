use mermaid::escape;
use mermaid::Config;
use mermaid::Configs;
use mermaid::Graph;
use mermaid::Mermaid;

fn simple_graph(directed: bool) -> Graph {
    let mut graph = Graph::new(directed);
    let a = graph.add_node("A".to_string());
    let b = graph.add_node("B".to_string());
    graph.add_edge(a, b, "edge_label".to_string());
    graph
}

#[test]
fn test_escape() {
    let escaped = escape("\" \\ \n");
    assert_eq!(escaped, "\\\" \\\\ \\l");
}

#[test]
fn test_escape_identity() {
    assert_eq!(escape("hello world"), "hello world");
    assert_eq!(escape(""), "");
    assert_eq!(escape("a[b]:::c 'd'"), "a[b]:::c 'd'");
}

#[test]
fn test_escape_every_special() {
    assert_eq!(escape("a\"b\\c\nd"), "a\\\"b\\\\c\\ld");
    assert_eq!(escape("\"\""), "\\\"\\\"");
    assert_eq!(escape("\\n"), "\\\\n");
}

#[test]
fn test_directed() {
    let graph = simple_graph(true);
    let text = Mermaid::new(&graph).render();
    assert_eq!(
        text,
        "flowchart TD\n    0[\"A\"]\n    1[\"B\"]\n    0 --> 1\n"
    );
}

#[test]
fn test_undirected() {
    let graph = simple_graph(false);
    let text = Mermaid::new(&graph).render();
    assert_eq!(
        text,
        "flowchart TD\n    0[\"A\"]\n    1[\"B\"]\n    0 --- 1\n"
    );
}

#[test]
fn test_deterministic() {
    let graph = simple_graph(true);
    let first = Mermaid::with_config(&graph, &[Config::NodeIndexLabel]).render();
    let second = Mermaid::with_config(&graph, &[Config::NodeIndexLabel]).render();
    assert_eq!(first, second);
}

#[test]
fn test_node_index_label() {
    let graph = simple_graph(true);
    let text = Mermaid::with_config(&graph, &[Config::NodeIndexLabel]).render();
    assert_eq!(
        text,
        "flowchart TD\n    0[\"0\"]\n    1[\"1\"]\n    0 --> 1\n"
    );
}

#[test]
fn test_node_no_label() {
    let graph = simple_graph(true);
    let text = Mermaid::with_config(&graph, &[Config::NodeNoLabel, Config::NodeIndexLabel])
        .render();
    assert_eq!(text, "flowchart TD\n    0[]\n    1[]\n    0 --> 1\n");
}

#[test]
fn test_node_injector() {
    let graph = simple_graph(true);
    let node_attrs = vec![":::highlight".to_string(), ":::highlight".to_string()];
    let text = Mermaid::with_attr_getters(&graph, &[], Vec::new(), node_attrs).render();
    assert_eq!(
        text,
        "flowchart TD\n    0[\"A\"]:::highlight\n    1[\"B\"]:::highlight\n    0 --> 1\n"
    );
}

#[test]
fn test_edge_injector() {
    let graph = simple_graph(true);
    let edge_attrs = vec![":::active".to_string()];
    let text = Mermaid::with_attr_getters(&graph, &[], edge_attrs, Vec::new()).render();
    assert_eq!(
        text,
        "flowchart TD\n    0[\"A\"]\n    1[\"B\"]\n    0 --> 1:::active\n"
    );
}

#[test]
fn test_injector_unescaped() {
    let graph = simple_graph(true);
    let node_attrs = vec!["\"raw\\".to_string()];
    let text = Mermaid::with_attr_getters(&graph, &[], Vec::new(), node_attrs).render();
    assert_eq!(
        text,
        "flowchart TD\n    0[\"A\"]\"raw\\\n    1[\"B\"]\n    0 --> 1\n"
    );
}

#[test]
fn test_payload_escaped_in_label() {
    let mut graph = Graph::new(true);
    graph.add_node("say \"hi\"\nback\\slash".to_string());
    let text = Mermaid::new(&graph).render();
    assert_eq!(text, "flowchart TD\n    0[\"say \\\"hi\\\"\\lback\\\\slash\"]\n");
}

#[test]
fn test_empty_graph() {
    let graph = Graph::new(true);
    let text = Mermaid::new(&graph).render();
    assert_eq!(text, "flowchart TD\n");
}

#[test]
fn test_multi_digit_indices() {
    let mut graph = Graph::new(true);
    for i in 0..11 {
        graph.add_node(format!("n{}", i));
    }
    graph.add_edge(10, 0, String::new());
    let text = Mermaid::new(&graph).render();
    assert!(text.contains("    10[\"n10\"]\n"));
    assert!(text.ends_with("    10 --> 0\n"));
}

#[test]
fn test_config_extract() {
    let conf = Configs::extract(&[]);
    assert!(!conf.node_index_label);
    assert!(!conf.edge_index_label);
    assert!(!conf.edge_no_label);
    assert!(!conf.node_no_label);

    let conf = Configs::extract(&[
        Config::EdgeNoLabel,
        Config::EdgeNoLabel,
        Config::NodeIndexLabel,
    ]);
    assert!(conf.node_index_label);
    assert!(!conf.edge_index_label);
    assert!(conf.edge_no_label);
    assert!(!conf.node_no_label);
}

#[test]
fn test_edge_flags_do_not_change_edges() {
    let graph = simple_graph(true);
    let plain = Mermaid::new(&graph).render();
    let flagged = Mermaid::with_config(
        &graph,
        &[Config::EdgeIndexLabel, Config::EdgeNoLabel],
    )
    .render();
    assert_eq!(plain, flagged);
}
